use vstd::prelude::*;
use crate::buffer::{alloc_ops, upload_ops, BufferKind};
use crate::commands::{
    apply, bound_buffer, lemma_run_concat, run, AttribFormat, DrawCall, GlOp, GlState,
    ARRAY_BUFFER, TRIANGLES,
};
use crate::frame::frame_ops;
use crate::vertexdescriptor::{element_ops, setup_ops, VertexElement};

verus! {

/// Position of the last element of `elems` that configures attribute `location`,
/// or -1 when none does.
pub open spec fn last_index(elems: Seq<VertexElement>, location: u32) -> int
    decreases elems.len(),
{
    if elems.len() == 0 {
        -1
    } else if elems.last().location == location {
        elems.len() - 1
    } else {
        last_index(elems.drop_last(), location)
    }
}

/// The format that element `e` gives its attribute, reading from buffer `source`.
pub open spec fn format_of(e: VertexElement, stride: nat, source: u32) -> AttribFormat {
    AttribFormat {
        components: e.size,
        component_type: e.gl_type,
        normalized: false,
        stride,
        offset: e.offset as nat,
        source,
    }
}

proof fn lemma_last_index_range(elems: Seq<VertexElement>, location: u32)
    ensures
        -1 <= last_index(elems, location) < elems.len(),
        last_index(elems, location) >= 0 ==> elems[last_index(elems, location)].location == location,
    decreases elems.len(),
{
    if elems.len() > 0 {
        lemma_last_index_range(elems.drop_last(), location);
    }
}

proof fn lemma_run_one(s: GlState, a: GlOp)
    ensures
        run(s, seq![a]) == apply(s, a),
{
    assert(seq![a].drop_last() =~= Seq::<GlOp>::empty());
    assert(run(s, Seq::<GlOp>::empty()) == s);
    assert(seq![a].last() == a);
}

proof fn lemma_run_two(s: GlState, a: GlOp, b: GlOp)
    ensures
        run(s, seq![a, b]) == apply(apply(s, a), b),
{
    assert(seq![a, b].drop_last() =~= seq![a]);
    lemma_run_one(s, a);
}

proof fn lemma_run_three(s: GlState, a: GlOp, b: GlOp, c: GlOp)
    ensures
        run(s, seq![a, b, c]) == apply(apply(apply(s, a), b), c),
{
    assert(seq![a, b, c].drop_last() =~= seq![a, b]);
    lemma_run_two(s, a, b);
}

/// Setting up attributes changes neither bindings, storage, the current vertex
/// array and program, nor the draws issued.
pub proof fn lemma_setup_keeps_bindings(s: GlState, elems: Seq<VertexElement>, stride: nat)
    ensures
        run(s, setup_ops(elems, stride)).bindings == s.bindings,
        run(s, setup_ops(elems, stride)).storage == s.storage,
        run(s, setup_ops(elems, stride)).vertex_array == s.vertex_array,
        run(s, setup_ops(elems, stride)).program == s.program,
        run(s, setup_ops(elems, stride)).draws == s.draws,
    decreases elems.len(),
{
    if elems.len() > 0 {
        let pre = setup_ops(elems.drop_last(), stride);
        let ops = element_ops(elems.last(), stride);
        lemma_setup_keeps_bindings(s, elems.drop_last(), stride);
        lemma_run_concat(s, pre, ops);
        lemma_run_two(run(s, pre), ops[0], ops[1]);
        assert(ops =~= seq![ops[0], ops[1]]);
    }
}

/// Allocating a buffer and then writing data of its full size at offset 0 leaves
/// the buffer holding exactly that data, with its target unbound.
pub proof fn lemma_full_upload_holds_data(s: GlState, kind: BufferKind, id: u32, data: Seq<u8>)
    requires
        id != 0,
    ensures
        ({
            let t = kind.target_spec();
            let after = run(
                s,
                alloc_ops(t, id, data.len()) + upload_ops(t, id, 0, data),
            );
            &&& after.storage.contains_key(id)
            &&& after.storage[id] == data.map_values(|b: u8| Some(b))
            &&& bound_buffer(after, t) == 0
        }),
{
    let t = kind.target_spec();
    let a = alloc_ops(t, id, data.len());
    let u = upload_ops(t, id, 0, data);
    lemma_run_concat(s, a, u);
    lemma_run_three(s, a[0], a[1], a[2]);
    assert(a =~= seq![a[0], a[1], a[2]]);
    let m = run(s, a);
    lemma_run_three(m, u[0], u[1], u[2]);
    assert(u =~= seq![u[0], u[1], u[2]]);
    let after = run(m, u);
    assert(after.storage[id] =~= data.map_values(|b: u8| Some(b)));
}

/// When several elements configure one attribute index, all are applied in turn
/// and the last one added is the format that stays; an index that no element
/// names keeps its format.
pub proof fn lemma_setup_last_wins(s: GlState, elems: Seq<VertexElement>, stride: nat, location: u32)
    requires
        s.vertex_array != 0,
    ensures
        ({
            let after = run(s, setup_ops(elems, stride));
            let key = (s.vertex_array, location);
            let k = last_index(elems, location);
            &&& k >= 0 ==> after.enabled.contains(key) && after.attribs.contains_key(key)
                && after.attribs[key] == format_of(elems[k], stride, bound_buffer(s, ARRAY_BUFFER))
            &&& k < 0 ==> after.attribs.contains_key(key) == s.attribs.contains_key(key)
                && after.attribs.get(key) == s.attribs.get(key)
        }),
    decreases elems.len(),
{
    if elems.len() > 0 {
        let pre = setup_ops(elems.drop_last(), stride);
        let ops = element_ops(elems.last(), stride);
        lemma_setup_last_wins(s, elems.drop_last(), stride, location);
        lemma_setup_keeps_bindings(s, elems.drop_last(), stride);
        lemma_run_concat(s, pre, ops);
        lemma_run_two(run(s, pre), ops[0], ops[1]);
        assert(ops =~= seq![ops[0], ops[1]]);
        let k = last_index(elems, location);
        lemma_last_index_range(elems.drop_last(), location);
        if elems.last().location != location {
            assert(k == last_index(elems.drop_last(), location));
            if k >= 0 {
                assert(elems[k] == elems.drop_last()[k]);
            }
        }
    }
}

/// One frame issues exactly one draw: three vertices drawn as triangles, with the
/// frame's program and vertex array current.
pub proof fn lemma_frame_draws_once(
    s: GlState,
    program: u32,
    array: u32,
    target: u32,
    buffer: u32,
    elems: Seq<VertexElement>,
    stride: nat,
)
    ensures
        run(s, frame_ops(program, array, target, buffer, elems, stride)).draws == s.draws.push(
            DrawCall { mode: TRIANGLES, first: 0, count: 3, program, array },
        ),
{
    let head = seq![
        GlOp::Clear { mask: crate::commands::COLOR_BUFFER_BIT },
        GlOp::UseProgram { program },
        GlOp::BindVertexArray { array },
        GlOp::BindBuffer { target, buffer },
    ];
    let mid = setup_ops(elems, stride);
    let tail = seq![GlOp::DrawArrays { mode: TRIANGLES, first: 0, count: 3 }];
    lemma_run_concat(s, head + mid, tail);
    lemma_run_concat(s, head, mid);
    assert(head.drop_last() =~= seq![head[0], head[1], head[2]]);
    lemma_run_three(s, head[0], head[1], head[2]);
    let h = run(s, head);
    lemma_setup_keeps_bindings(h, elems, stride);
    lemma_run_one(run(h, mid), tail[0]);
}

} // verus!
