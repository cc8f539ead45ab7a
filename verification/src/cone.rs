//! Topology of the cone mesh drawn for the rocket's nose and the axis arrow
//! heads: `resolution` rim vertices, then the base centre, then the apex,
//! joined into triangles.
use vstd::prelude::*;

verus! {

/// Index of the base centre vertex.
pub open spec fn cone_center(resolution: nat) -> nat {
    resolution
}

/// Index of the apex vertex.
pub open spec fn cone_apex(resolution: nat) -> nat {
    resolution + 1
}

/// The triangles of the first `n` rim segments: segment `i` (from rim vertex
/// `i - 1` to `i`) gives a base triangle and a side triangle.
pub open spec fn rim_segments(resolution: nat, n: nat) -> Seq<u32>
    decreases n,
{
    if n == 0 {
        Seq::empty()
    } else {
        rim_segments(resolution, (n - 1) as nat) + seq![
            cone_center(resolution) as u32,
            n as u32,
            (n - 1) as u32,
            cone_apex(resolution) as u32,
            (n - 1) as u32,
            n as u32,
        ]
    }
}

/// The triangle list of a cone: the segments between consecutive rim
/// vertices, then the closing segment from the last rim vertex back to the first.
pub open spec fn cone_indices_spec(resolution: nat) -> Seq<u32> {
    rim_segments(resolution, (resolution - 1) as nat) + seq![
        cone_center(resolution) as u32,
        0u32,
        (resolution - 1) as u32,
        cone_apex(resolution) as u32,
        (resolution - 1) as u32,
        0u32,
    ]
}

/// The triangle list of a cone with `resolution` rim vertices (see
/// [`cone_indices_spec`]).
pub fn cone_indices(resolution: u32) -> (r: Vec<u32>)
    requires
        resolution > 2,
        resolution * 6 <= u32::MAX,
    ensures
        r@ == cone_indices_spec(resolution as nat),
        r@.len() == 6 * resolution,
        forall|k: int|
            0 <= k < resolution - 1 ==> #[trigger] segment(r@, k) == seq![
                resolution,
                (k + 1) as u32,
                k as u32,
                (resolution + 1) as u32,
                k as u32,
                (k + 1) as u32,
            ],
        segment(r@, resolution - 1) == seq![
            resolution,
            0u32,
            (resolution - 1) as u32,
            (resolution + 1) as u32,
            (resolution - 1) as u32,
            0u32,
        ],
{
    proof {
        lemma_cone_triangles(resolution as nat);
    }
    let num_vertices = resolution + 2;
    let center = num_vertices - 2;
    let top = num_vertices - 1;
    let mut indices: Vec<u32> = Vec::with_capacity((resolution * 6) as usize);
    let mut i: u32 = 1;
    while i < resolution
        invariant
            1 <= i <= resolution,
            resolution * 6 <= u32::MAX,
            center == resolution,
            top == resolution + 1,
            indices@ == rim_segments(resolution as nat, (i - 1) as nat),
        decreases resolution - i,
    {
        indices.push(center);
        indices.push(i);
        indices.push(i - 1);
        indices.push(top);
        indices.push(i - 1);
        indices.push(i);
        assert(indices@ =~= rim_segments(resolution as nat, i as nat));
        i = i + 1;
    }
    indices.push(center);
    indices.push(0);
    indices.push(resolution - 1);
    indices.push(top);
    indices.push(resolution - 1);
    indices.push(0);
    assert(indices@ =~= cone_indices_spec(resolution as nat));
    indices
}

proof fn lemma_rim_segments(resolution: nat, n: nat)
    requires
        n < resolution,
        resolution * 6 <= u32::MAX,
    ensures
        rim_segments(resolution, n).len() == 6 * n,
        forall|j: int| 0 <= j < 6 * n ==> rim_segments(resolution, n)[j] < resolution + 2,
    decreases n,
{
    if n > 0 {
        lemma_rim_segments(resolution, (n - 1) as nat);
        let prev = rim_segments(resolution, (n - 1) as nat);
        let cur = rim_segments(resolution, n);
        assert forall|j: int| 0 <= j < 6 * n implies cur[j] < resolution + 2 by {
            if j < 6 * (n - 1) {
                assert(cur[j] == prev[j]);
            }
        }
    }
}

/// A cone's triangle list has two triangles per rim vertex, and every index
/// names one of its `resolution + 2` vertices.
pub proof fn lemma_cone_indices_valid(resolution: nat)
    requires
        resolution > 2,
        resolution * 6 <= u32::MAX,
    ensures
        cone_indices_spec(resolution).len() == 6 * resolution,
        forall|j: int| 0 <= j < 6 * resolution ==> cone_indices_spec(resolution)[j] < resolution + 2,
{
    lemma_rim_segments(resolution, (resolution - 1) as nat);
    let rim = rim_segments(resolution, (resolution - 1) as nat);
    let all = cone_indices_spec(resolution);
    assert forall|j: int| 0 <= j < 6 * resolution implies all[j] < resolution + 2 by {
        if j < 6 * (resolution - 1) {
            assert(all[j] == rim[j]);
        }
    }
}

/// The six indices of segment `k` of a triangle list: its base triangle and
/// its side triangle.
pub open spec fn segment(indices: Seq<u32>, k: int) -> Seq<u32> {
    indices.subrange(6 * k, 6 * k + 6)
}

proof fn lemma_rim_segment_triangles(resolution: nat, n: nat)
    requires
        n < resolution,
        resolution * 6 <= u32::MAX,
    ensures
        rim_segments(resolution, n).len() == 6 * n,
        forall|k: int|
            0 <= k < n ==> #[trigger] segment(rim_segments(resolution, n), k) == seq![
                resolution as u32,
                (k + 1) as u32,
                k as u32,
                (resolution + 1) as u32,
                k as u32,
                (k + 1) as u32,
            ],
    decreases n,
{
    if n > 0 {
        lemma_rim_segment_triangles(resolution, (n - 1) as nat);
        let prev = rim_segments(resolution, (n - 1) as nat);
        let cur = rim_segments(resolution, n);
        assert forall|k: int| 0 <= k < n implies #[trigger] segment(cur, k) == seq![
            resolution as u32,
            (k + 1) as u32,
            k as u32,
            (resolution + 1) as u32,
            k as u32,
            (k + 1) as u32,
        ] by {
            if k < n - 1 {
                assert(segment(cur, k) =~= segment(prev, k));
            } else {
                assert(segment(cur, k) =~= seq![
                    resolution as u32,
                    n as u32,
                    (n - 1) as u32,
                    (resolution + 1) as u32,
                    (n - 1) as u32,
                    n as u32,
                ]);
            }
        }
    }
}

/// The triangle list of a cone closes its rim: for every rim edge from vertex
/// `k` to `k + 1`, and for the closing edge from the last rim vertex back to
/// vertex 0, it holds exactly one base triangle with the centre (vertex
/// `resolution`) and one side triangle with the apex (vertex
/// `resolution + 1`), in that order along the rim, and nothing else.
pub proof fn lemma_cone_triangles(resolution: nat)
    requires
        resolution > 2,
        resolution * 6 <= u32::MAX,
    ensures
        cone_indices_spec(resolution).len() == 6 * resolution,
        forall|k: int|
            0 <= k < resolution - 1 ==> #[trigger] segment(cone_indices_spec(resolution), k) == seq![
                resolution as u32,
                (k + 1) as u32,
                k as u32,
                (resolution + 1) as u32,
                k as u32,
                (k + 1) as u32,
            ],
        segment(cone_indices_spec(resolution), resolution - 1) == seq![
            resolution as u32,
            0u32,
            (resolution - 1) as u32,
            (resolution + 1) as u32,
            (resolution - 1) as u32,
            0u32,
        ],
{
    let rim = rim_segments(resolution, (resolution - 1) as nat);
    let all = cone_indices_spec(resolution);
    lemma_rim_segment_triangles(resolution, (resolution - 1) as nat);
    assert forall|k: int| 0 <= k < resolution - 1 implies #[trigger] segment(all, k) == seq![
        resolution as u32,
        (k + 1) as u32,
        k as u32,
        (resolution + 1) as u32,
        k as u32,
        (k + 1) as u32,
    ] by {
        assert(segment(all, k) =~= segment(rim, k));
    }
    assert(segment(all, resolution - 1) =~= seq![
        resolution as u32,
        0u32,
        (resolution - 1) as u32,
        (resolution + 1) as u32,
        (resolution - 1) as u32,
        0u32,
    ]);
}

} // verus!
