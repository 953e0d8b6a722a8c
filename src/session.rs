//! What a session has been given so far, and what each solve submits from it.
use vstd::prelude::*;
use crate::calls::{contour_call, option_call, ContourCall, OptionCall};
use crate::codes::{option_code, TesselatorOption};

verus! {

/// The add-contour calls that submit `contours`, in order.
pub open spec fn submitted_contours<T>(contours: Seq<Vec<[T; 2]>>, coord_bytes: usize) -> Seq<
    ContourCall,
> {
    Seq::new(
        contours.len(),
        |i: int|
            ContourCall {
                size: 2,
                stride: (2 * coord_bytes) as i32,
                count: contours[i]@.len() as i32,
            },
    )
}

/// Adding a contour leaves what a solve submits for the earlier contours as it
/// was, and adds one call for the new contour at the end: every solve goes over
/// all the contours added so far.
pub proof fn lemma_add_contour_extends_submission<T>(
    contours: Seq<Vec<[T; 2]>>,
    points: Vec<[T; 2]>,
    coord_bytes: usize,
)
    ensures
        submitted_contours(contours.push(points), coord_bytes) == submitted_contours(
            contours,
            coord_bytes,
        ).push(
            ContourCall {
                size: 2,
                stride: (2 * coord_bytes) as i32,
                count: points@.len() as i32,
            },
        ),
{
    assert(submitted_contours(contours.push(points), coord_bytes) =~= submitted_contours(
        contours,
        coord_bytes,
    ).push(
        ContourCall { size: 2, stride: (2 * coord_bytes) as i32, count: points@.len() as i32 },
    ));
}

/// The contours and option values of a session. The engine forgets its input
/// at the end of a solve, so every solve submits all of this again: first the
/// option calls, then one add-contour call per contour, in the order added.
pub struct Session<T> {
    /// Every contour added so far, in order.
    pub contours: Vec<Vec<[T; 2]>>,
    /// Current value of the constrained-Delaunay option.
    pub delaunay: i32,
    /// Current value of the reverse-contours option.
    pub reverse: i32,
}

impl<T: Copy> Session<T> {
    /// An empty session: no contours, both options at the engine's default of 0.
    pub fn new() -> (s: Self)
        ensures
            s.contours@.len() == 0,
            s.delaunay == 0,
            s.reverse == 0,
    {
        Session { contours: Vec::new(), delaunay: 0, reverse: 0 }
    }

    /// Appends one contour; no check is made on it, so contours of fewer than
    /// three points are kept too.
    pub fn add_contour(&mut self, points: Vec<[T; 2]>)
        ensures
            final(self).contours@ == old(self).contours@.push(points),
            final(self).delaunay == old(self).delaunay,
            final(self).reverse == old(self).reverse,
    {
        self.contours.push(points);
    }

    /// Records `value` for `option`, for every later solve. Any value is kept.
    pub fn set_option(&mut self, option: TesselatorOption, value: i32)
        ensures
            final(self).contours@ == old(self).contours@,
            final(self).delaunay == (if option == TesselatorOption::ConstrainedDelaunayTriangulation {
                value
            } else {
                old(self).delaunay
            }),
            final(self).reverse == (if option == TesselatorOption::ReverseContour {
                value
            } else {
                old(self).reverse
            }),
    {
        match option {
            TesselatorOption::ConstrainedDelaunayTriangulation => {
                self.delaunay = value;
            },
            TesselatorOption::ReverseContour => {
                self.reverse = value;
            },
        }
    }

    /// The set-option calls that start a solve: each option with its current value.
    pub fn option_calls(&self) -> (r: Vec<OptionCall>)
        ensures
            r@.len() == 2,
            r@[0] == (OptionCall {
                option: option_code(TesselatorOption::ConstrainedDelaunayTriangulation) as i32,
                value: self.delaunay,
            }),
            r@[1] == (OptionCall {
                option: option_code(TesselatorOption::ReverseContour) as i32,
                value: self.reverse,
            }),
    {
        let mut r: Vec<OptionCall> = Vec::new();
        r.push(option_call(TesselatorOption::ConstrainedDelaunayTriangulation, self.delaunay));
        r.push(option_call(TesselatorOption::ReverseContour, self.reverse));
        r
    }

    /// The add-contour calls of a solve, one per stored contour, in the order
    /// the contours were added, for coordinates `coord_bytes` wide. Nothing
    /// where a stride or a point count does not fit the engine's `int`.
    pub fn contour_calls(&self, coord_bytes: usize) -> (r: Option<Vec<ContourCall>>)
        ensures
            r is Some <==> (2 * coord_bytes <= i32::MAX && forall|i: int|
                0 <= i < self.contours@.len() ==> (#[trigger] self.contours@[i])@.len()
                    <= i32::MAX),
            r is Some ==> r.unwrap()@ == submitted_contours(self.contours@, coord_bytes),
    {
        if coord_bytes > (i32::MAX / 2) as usize {
            return None;
        }
        let n: usize = self.contours.len();
        let mut out: Vec<ContourCall> = Vec::new();
        let mut i: usize = 0;
        while i < n
            invariant
                n == self.contours@.len(),
                2 * coord_bytes <= i32::MAX,
                i <= n,
                out@.len() == i,
                forall|k: int| 0 <= k < i ==> (#[trigger] self.contours@[k])@.len() <= i32::MAX,
                forall|k: int|
                    0 <= k < i ==> #[trigger] out@[k] == (ContourCall {
                        size: 2,
                        stride: (2 * coord_bytes) as i32,
                        count: self.contours@[k]@.len() as i32,
                    }),
            decreases n - i,
        {
            match contour_call(self.contours[i].len(), coord_bytes) {
                Some(call) => {
                    out.push(call);
                },
                None => {
                    return None;
                },
            }
            i = i + 1;
        }
        assert(out@ =~= submitted_contours(self.contours@, coord_bytes));
        Some(out)
    }
}

} // verus!
