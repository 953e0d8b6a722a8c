//! Reading the engine's flat output buffers into vertex and index lists.
use vstd::prelude::*;

verus! {

/// The value the engine writes into an element slot that holds no vertex.
pub const TESS_UNDEF: i32 = -1;

/// Triangle list: each element of the output is a run of this many slots.
pub const POLY_SIZE: usize = 3;

/// Two coordinates per output vertex.
pub const VERTEX_SIZE: usize = 2;

/// The non-sentinel slots of `slots`, in order, as unsigned indices.
pub open spec fn kept_indices(slots: Seq<i32>) -> Seq<u32>
    decreases slots.len(),
{
    if slots.len() == 0 {
        Seq::empty()
    } else {
        let rest = kept_indices(slots.drop_last());
        if slots.last() == TESS_UNDEF {
            rest
        } else {
            rest.push(slots.last() as u32)
        }
    }
}

/// The slots that belong to whole runs of `POLY_SIZE`; a trailing partial run is not an element.
pub open spec fn whole_runs(elements: Seq<i32>) -> Seq<i32> {
    elements.take((elements.len() / 3 * 3) as int)
}

/// What the index list of a solve is: the kept slots of the whole runs.
pub open spec fn indices_of(elements: Seq<i32>) -> Seq<u32> {
    kept_indices(whole_runs(elements))
}

/// Each kept index comes from a non-sentinel slot.
pub proof fn lemma_kept_from_slots(slots: Seq<i32>)
    ensures
        kept_indices(slots).len() <= slots.len(),
        forall|i: int|
            0 <= i < kept_indices(slots).len() ==> exists|j: int|
                0 <= j < slots.len() && slots[j] != TESS_UNDEF && #[trigger] kept_indices(
                    slots,
                )[i] == (#[trigger] slots[j] as u32),
    decreases slots.len(),
{
    if slots.len() > 0 {
        let init = slots.drop_last();
        lemma_kept_from_slots(init);
        assert forall|i: int| 0 <= i < kept_indices(slots).len() implies exists|j: int|
            0 <= j < slots.len() && slots[j] != TESS_UNDEF && #[trigger] kept_indices(slots)[i]
                == (#[trigger] slots[j] as u32) by {
            if i < kept_indices(init).len() {
                let j = choose|j: int|
                    0 <= j < init.len() && init[j] != TESS_UNDEF && #[trigger] kept_indices(
                        init,
                    )[i] == (#[trigger] init[j] as u32);
                assert(slots[j] == init[j]);
            } else {
                assert(slots[slots.len() - 1] == slots.last());
            }
        }
    }
}

/// Without sentinels every slot is kept.
pub proof fn lemma_kept_all(slots: Seq<i32>)
    requires
        forall|k: int| 0 <= k < slots.len() ==> slots[k] != TESS_UNDEF,
    ensures
        kept_indices(slots).len() == slots.len(),
    decreases slots.len(),
{
    if slots.len() > 0 {
        lemma_kept_all(slots.drop_last());
    }
}

/// The flat element buffer of a triangle solve, walked in runs of three, with
/// every sentinel slot left out. A run holding sentinels gives fewer than three
/// indices, so the result's length need not be a multiple of three.
pub fn collect_indices(elements: &[i32]) -> (r: Vec<u32>)
    ensures
        r@ == indices_of(elements@),
        (forall|k: int| 0 <= k < whole_runs(elements@).len() ==> elements@[k] != TESS_UNDEF)
            ==> r@.len() == elements@.len() / 3 * 3,
{
    let n: usize = elements.len();
    let runs: usize = n / POLY_SIZE;
    let mut out: Vec<u32> = Vec::new();
    let mut i: usize = 0;
    while i < runs
        invariant
            n == elements@.len(),
            runs == elements@.len() / 3,
            i <= runs,
            out@ == kept_indices(elements@.take(3 * i as int)),
        decreases runs - i,
    {
        let mut j: usize = 0;
        while j < POLY_SIZE
            invariant
                n == elements@.len(),
                runs == elements@.len() / 3,
                i < runs,
                j <= 3,
                out@ == kept_indices(elements@.take(3 * i + j as int)),
            decreases 3 - j,
        {
            proof {
                assert(3 * i + j < elements@.len()) by (nonlinear_arith)
                    requires
                        i < runs,
                        j < 3,
                        runs == elements@.len() / 3,
                ;
            }
            let idx: i32 = elements[POLY_SIZE * i + j];
            proof {
                assert(elements@.take(3 * i + j + 1 as int).drop_last() =~= elements@.take(
                    3 * i + j as int,
                ));
            }
            if idx != TESS_UNDEF {
                out.push(#[verifier::truncate] (idx as u32));
            }
            j = j + 1;
        }
        i = i + 1;
    }
    proof {
        assert(elements@.take(3 * runs as int) =~= whole_runs(elements@));
        if forall|k: int| 0 <= k < whole_runs(elements@).len() ==> elements@[k] != TESS_UNDEF {
            lemma_kept_all(whole_runs(elements@));
        }
    }
    out
}

/// Vertex `i` of a flat coordinate buffer holds coordinates `2i` and `2i + 1`.
pub open spec fn is_vertex_list<T>(flat: Seq<T>, v: Seq<[T; 2]>) -> bool {
    &&& v.len() == flat.len() / 2
    &&& forall|i: int|
        0 <= i < v.len() ==> (#[trigger] v[i])@[0] == flat[2 * i] && v[i]@[1] == flat[2 * i + 1]
}

/// A flat coordinate buffer is read as one vertex list only: reading the same
/// buffer twice gives the same vertices in the same order.
pub proof fn lemma_vertex_list_unique<T>(flat: Seq<T>, a: Seq<[T; 2]>, b: Seq<[T; 2]>)
    requires
        is_vertex_list(flat, a),
        is_vertex_list(flat, b),
    ensures
        a == b,
{
    assert forall|i: int| 0 <= i < a.len() implies a[i] == b[i] by {
        assert(a[i] =~= b[i]);
    }
    assert(a =~= b);
}

/// The engine's flat vertex buffer read as coordinate pairs, in the order the
/// engine emitted them; that order is what the indices refer to.
pub fn collect_vertices<T: Copy>(flat: &[T]) -> (r: Vec<[T; 2]>)
    ensures
        is_vertex_list(flat@, r@),
{
    let n: usize = flat.len();
    let count: usize = n / VERTEX_SIZE;
    let mut out: Vec<[T; 2]> = Vec::new();
    let mut i: usize = 0;
    while i < count
        invariant
            n == flat@.len(),
            count == flat@.len() / 2,
            i <= count,
            out@.len() == i,
            forall|k: int|
                0 <= k < i ==> (#[trigger] out@[k])@[0] == flat@[2 * k] && out@[k]@[1] == flat@[2
                    * k + 1],
        decreases count - i,
    {
        let x: T = flat[VERTEX_SIZE * i];
        let y: T = flat[VERTEX_SIZE * i + 1];
        let pair: [T; 2] = [x, y];
        out.push(pair);
        i = i + 1;
    }
    out
}

/// Every slot of the whole runs is a sentinel or names one of `vertex_count` vertices,
/// as the engine's output after a successful solve is.
pub open spec fn slots_name_vertices(elements: Seq<i32>, vertex_count: int) -> bool {
    forall|k: int|
        0 <= k < whole_runs(elements).len() ==> #[trigger] elements[k] == TESS_UNDEF || (0
            <= elements[k] < vertex_count)
}

/// Where every slot is a sentinel or names a vertex, every index read from the
/// element buffer is less than the number of vertices.
pub proof fn lemma_indices_within_vertices(elements: Seq<i32>, vertex_count: int)
    requires
        slots_name_vertices(elements, vertex_count),
    ensures
        forall|i: int|
            0 <= i < indices_of(elements).len() ==> (#[trigger] indices_of(elements)[i] as int)
                < vertex_count,
{
    let runs = whole_runs(elements);
    lemma_kept_from_slots(runs);
    assert forall|i: int| 0 <= i < indices_of(elements).len() implies (
    #[trigger] indices_of(elements)[i] as int) < vertex_count by {
        let j = choose|j: int|
            0 <= j < runs.len() && runs[j] != TESS_UNDEF && #[trigger] kept_indices(runs)[i] == (
            #[trigger] runs[j] as u32);
        assert(runs[j] == elements[j]);
        let x: i32 = runs[j];
        assert(0 <= x ==> (x as u32) as int == x as int) by (bit_vector);
    }
}

/// The outcome of a triangle solve: nothing where the engine reported failure
/// (`status == 0`), else the vertex list and the sentinel-filtered index list
/// read from the engine's two buffers.
pub fn tesselation_result<T: Copy>(status: i32, vertices: &[T], elements: &[i32]) -> (r: Option<
    (Vec<[T; 2]>, Vec<u32>),
>)
    ensures
        status == 0 <==> r is None,
        status != 0 ==> is_vertex_list(vertices@, r.unwrap().0@),
        status != 0 ==> r.unwrap().1@ == indices_of(elements@),
        status != 0 && slots_name_vertices(elements@, (vertices@.len() / 2) as int) ==> forall|i: int|
            0 <= i < r.unwrap().1@.len() ==> (#[trigger] r.unwrap().1@[i] as int) < r.unwrap().0@.len(),
{
    if status == 0 {
        return None;
    }
    let indices: Vec<u32> = collect_indices(elements);
    let points: Vec<[T; 2]> = collect_vertices(vertices);
    proof {
        if slots_name_vertices(elements@, (vertices@.len() / 2) as int) {
            lemma_indices_within_vertices(elements@, (vertices@.len() / 2) as int);
        }
    }
    Some((points, indices))
}

} // verus!
