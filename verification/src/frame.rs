//! The frame record: one time-step of simulated state. Plain data with
//! construction, resizing and filtering; no behavior beyond that.
use vstd::prelude::*;

verus! {

/// A coordinate triplet, one per atom, with each component carried as the bit
/// pattern of the codec's single-precision scalar.
pub type Triplet = [u32; 3];

/// The zero triplet, the fill value for newly created coordinates.
pub open spec fn zero_triplet() -> Triplet {
    [0u32, 0u32, 0u32]
}

/// The zero box matrix.
pub open spec fn zero_box() -> [Triplet; 3] {
    [zero_triplet(), zero_triplet(), zero_triplet()]
}

/// A frame represents a single step in a trajectory.
#[derive(Debug, PartialEq)]
pub struct Frame {
    /// Trajectory step
    pub step: usize,
    /// Time step (usually in picoseconds), as a scalar bit pattern
    pub time: u32,
    /// 3x3 box matrix of scalar bit patterns
    pub box_vector: [Triplet; 3],
    /// 3D coordinates for N atoms where N is the atom count
    pub coords: Vec<Triplet>,
}

/// The mathematical value of a frame: its step, scalar payloads and the
/// coordinate sequence.
pub ghost struct FrameView {
    pub step: nat,
    pub time: u32,
    pub box_vector: [Triplet; 3],
    pub coords: Seq<Triplet>,
}

impl View for Frame {
    type V = FrameView;

    open spec fn view(&self) -> FrameView {
        FrameView {
            step: self.step as nat,
            time: self.time,
            box_vector: self.box_vector,
            coords: self.coords@,
        }
    }
}

/// The coordinate sequence `s` shortened or zero-extended to length `n`.
pub open spec fn resized_coords(s: Seq<Triplet>, n: nat) -> Seq<Triplet> {
    if n <= s.len() {
        s.subrange(0, n as int)
    } else {
        s + Seq::new((n - s.len()) as nat, |i: int| zero_triplet())
    }
}

impl Frame {
    /// Creates an empty frame with no atoms.
    pub fn new() -> (r: Frame)
        ensures
            r.step == 0,
            r.time == 0,
            r.box_vector == zero_box(),
            r.coords@ == Seq::<Triplet>::empty(),
    {
        Frame { step: 0, time: 0, box_vector: [[0u32, 0u32, 0u32]; 3], coords: Vec::new() }
    }

    /// Creates a frame with the given number of atoms, all coordinates zero.
    pub fn with_len(num_atoms: usize) -> (r: Frame)
        ensures
            r.step == 0,
            r.time == 0,
            r.box_vector == zero_box(),
            r.coords@ == Seq::new(num_atoms as nat, |i: int| zero_triplet()),
    {
        let mut frame = Frame::new();
        frame.resize(num_atoms);
        proof {
            assert(frame.coords@ =~= Seq::new(num_atoms as nat, |i: int| zero_triplet()));
        }
        frame
    }

    /// Length of the frame (number of atoms).
    pub fn len(&self) -> (r: usize)
        ensures
            r == self.coords@.len(),
    {
        self.num_atoms()
    }

    /// The number of atoms in the frame.
    pub fn num_atoms(&self) -> (r: usize)
        ensures
            r == self.coords@.len(),
    {
        self.coords.len()
    }

    /// Resize the frame to have exactly `num_atoms` atoms, filling the
    /// coordinates with zeros if necessary. Step, time and box are untouched.
    pub fn resize(&mut self, num_atoms: usize)
        ensures
            final(self).coords@ == resized_coords(old(self).coords@, num_atoms as nat),
            final(self).step == old(self).step,
            final(self).time == old(self).time,
            final(self).box_vector == old(self).box_vector,
    {
        if num_atoms <= self.coords.len() {
            self.coords.truncate(num_atoms);
        } else {
            let ghost orig = *self;
            let ghost start = self.coords@;
            while self.coords.len() < num_atoms
                invariant
                    *self == (Frame { coords: self.coords, ..orig }),
                    start.len() <= self.coords@.len() <= num_atoms as nat,
                    forall|i: int| 0 <= i < start.len() ==> self.coords@[i] == start[i],
                    forall|i: int|
                        start.len() <= i < self.coords@.len() ==> self.coords@[i]
                            == zero_triplet(),
                decreases num_atoms as int - self.coords@.len(),
            {
                self.coords.push([0u32, 0u32, 0u32]);
            }
            proof {
                assert(self.coords@ =~= resized_coords(start, num_atoms as nat));
            }
        }
    }

    /// Filters the frame by removing all atoms whose position is not among
    /// the given indices; the kept coordinates stay in their original order.
    pub fn filter_coords(&mut self, indices: &[usize])
        ensures
            final(self).coords@ == filtered_coords(
                old(self).coords@,
                indices@,
                old(self).coords@.len() as int,
            ),
            final(self).step == old(self).step,
            final(self).time == old(self).time,
            final(self).box_vector == old(self).box_vector,
    {
        let ghost orig = self.coords@;
        let mut kept: Vec<Triplet> = Vec::new();
        let mut i: usize = 0;
        while i < self.coords.len()
            invariant
                orig == self.coords@,
                i <= orig.len(),
                kept@ == filtered_coords(orig, indices@, i as int),
            decreases orig.len() - i,
        {
            if contains_index(indices, i) {
                kept.push(self.coords[i]);
            }
            i = i + 1;
            proof {
                assert(kept@ =~= filtered_coords(orig, indices@, i as int));
            }
        }
        self.coords = kept;
    }
}

/// The first `n` elements of `s`, keeping exactly those whose position occurs
/// in `indices`.
pub open spec fn filtered_coords(s: Seq<Triplet>, indices: Seq<usize>, n: int) -> Seq<Triplet>
    decreases n,
{
    if n <= 0 {
        Seq::empty()
    } else {
        filtered_coords(s, indices, n - 1) + if indices.contains((n - 1) as usize) {
            seq![s[n - 1]]
        } else {
            Seq::empty()
        }
    }
}

/// True exactly when `value` occurs in `indices`.
fn contains_index(indices: &[usize], value: usize) -> (r: bool)
    ensures
        r == indices@.contains(value),
{
    let mut j: usize = 0;
    while j < indices.len()
        invariant
            j <= indices@.len(),
            forall|k: int| 0 <= k < j ==> indices@[k] != value,
        decreases indices@.len() - j,
    {
        if indices[j] == value {
            assert(indices@.contains(value));
            return true;
        }
        j = j + 1;
    }
    assert(!indices@.contains(value));
    false
}

impl Default for Frame {
    /// The empty frame.
    fn default() -> (r: Frame)
        ensures
            r.step == 0,
            r.time == 0,
            r.box_vector == zero_box(),
            r.coords@ == Seq::<Triplet>::empty(),
    {
        Frame::new()
    }
}

impl Clone for Frame {
    fn clone(&self) -> (r: Frame)
        ensures
            r@ == self@,
    {
        Frame {
            step: self.step,
            time: self.time,
            box_vector: self.box_vector,
            coords: clone_coords(&self.coords),
        }
    }
}

/// Copy a coordinate vector.
fn clone_coords(coords: &Vec<Triplet>) -> (r: Vec<Triplet>)
    ensures
        r@ == coords@,
{
    let mut r: Vec<Triplet> = Vec::new();
    let mut i: usize = 0;
    while i < coords.len()
        invariant
            i <= coords@.len(),
            r@ == coords@.subrange(0, i as int),
        decreases coords@.len() - i,
    {
        r.push(coords[i]);
        i = i + 1;
        proof {
            assert(r@ =~= coords@.subrange(0, i as int));
        }
    }
    proof {
        assert(r@ =~= coords@);
    }
    r
}

} // verus!
