//! The plan of one frame: what is staged into the uniform buffers, which
//! grid each pass is dispatched over, and what is read back.

use crate::keys::{packed_bytes, Keys};
use crate::layout::BufferId;
use crate::pipeline::{runnable, tiles, Pass, Rollback, MAX_PASSES};
use crate::resources::{pixel_count, DEBUG_SIZE};
use crate::shader::WorkgroupSize;
use crate::uniforms::{
    custom_bytes, lemma_words_le_len, mouse_bytes, mouse_bytes_spec, time_bytes, time_bytes_spec,
    words_le, zero_bytes, Mouse, Time,
};
use vstd::prelude::*;

verus! {

/// Frames between two readbacks of the assertion counters.
pub const READBACK_PERIOD: u32 = 100;

/// Bytes of one resolved timestamp.
pub const TIMESTAMP_SIZE: u64 = 8;

/// Bytes to write into a buffer before the passes run.
#[derive(Debug)]
pub struct Upload {
    pub target: BufferId,
    pub bytes: Vec<u8>,
}

/// An upload as a value.
pub struct UploadView {
    pub target: BufferId,
    pub bytes: Seq<u8>,
}

impl View for Upload {
    type V = UploadView;

    open spec fn view(&self) -> UploadView {
        UploadView { target: self.target, bytes: self.bytes@ }
    }
}

impl DeepView for Upload {
    type V = UploadView;

    open spec fn deep_view(&self) -> UploadView {
        self@
    }
}

/// The two timestamp queries of a pass: one written before its dispatch,
/// one after.
#[derive(Clone, Copy, Debug, PartialEq, Eq, Structural)]
pub struct Timestamps {
    pub before: u32,
    pub after: u32,
}

/// The grid of workgroups of one pass, and its timestamp queries where
/// the device takes timestamps.
#[derive(Clone, Copy, Debug, PartialEq, Eq, Structural)]
pub struct Dispatch {
    pub x: u32,
    pub y: u32,
    pub z: u32,
    pub timestamps: Option<Timestamps>,
}

/// The buffer that takes the assertion counters, and the resolved
/// timestamps behind them, to be mapped and read by the host.
#[derive(Clone, Copy, Debug, PartialEq, Eq, Structural)]
pub struct Readback {
    /// Bytes of the buffer.
    pub size: u64,
    /// Bytes of the counters at its head.
    pub counters_size: u64,
    /// Queries to resolve behind the counters.
    pub query_count: Option<u32>,
    /// Shader invocations of one pass over the viewport.
    pub threads: u64,
}

/// Everything the host does for one frame, in this order: write the
/// uploads, run each dispatch with the pass at the same place in the
/// current set and copy the write texture over the read texture after
/// it, schedule the readback, present.
#[derive(Debug)]
pub struct FramePlan {
    /// The frame counter that the shader sees.
    pub frame: u32,
    pub uploads: Vec<Upload>,
    /// Buffers left as they were because there was nothing to write.
    pub skipped: Vec<BufferId>,
    /// What the rollback did, where one was pending.
    pub rollback: Option<Rollback>,
    pub dispatches: Vec<Dispatch>,
    /// Width, height and layers copied from write to read texture.
    pub copy_extent: (u32, u32, u32),
    pub readback: Option<Readback>,
}

/// A frame plan as a value.
pub struct FramePlanView {
    pub frame: u32,
    pub uploads: Seq<UploadView>,
    pub skipped: Seq<BufferId>,
    pub rollback: Option<Rollback>,
    pub dispatches: Seq<Dispatch>,
    pub copy_extent: (u32, u32, u32),
    pub readback: Option<Readback>,
}

impl View for FramePlan {
    type V = FramePlanView;

    open spec fn view(&self) -> FramePlanView {
        FramePlanView {
            frame: self.frame,
            uploads: self.uploads.deep_view(),
            skipped: self.skipped@,
            rollback: self.rollback,
            dispatches: self.dispatches@,
            copy_extent: self.copy_extent,
            readback: self.readback,
        }
    }
}

/// The quotient rounded up.
pub open spec fn ceil_div(a: int, b: int) -> int {
    a / b + if a % b == 0 {
        0int
    } else {
        1int
    }
}

/// The grid of workgroups that covers a viewport: enough groups along x
/// and y, one along z.
pub open spec fn grid_spec(
    width: u32,
    height: u32,
    size: WorkgroupSize,
    timestamps: Option<Timestamps>,
) -> Dispatch {
    Dispatch {
        x: ceil_div(width as int, size.x as int) as u32,
        y: ceil_div(height as int, size.y as int) as u32,
        z: 1,
        timestamps,
    }
}

/// The two timestamp queries of a pass.
pub open spec fn timestamps_spec(pass: int, timestamp_queries: bool) -> Option<Timestamps> {
    if timestamp_queries {
        Some(Timestamps { before: (2 * pass) as u32, after: (2 * pass + 1) as u32 })
    } else {
        None
    }
}

/// The dispatches of a pipeline set, pass by pass.
pub open spec fn dispatches_spec<P>(
    passes: Seq<Pass<P>>,
    width: u32,
    height: u32,
    timestamp_queries: bool,
) -> Seq<Dispatch> {
    Seq::new(
        passes.len(),
        |i: int|
            grid_spec(width, height, passes[i].workgroup_size, timestamps_spec(i, timestamp_queries)),
    )
}

/// The uploads of a frame: the custom parameters where there are any,
/// then time, mouse, keys, and zeroes for the assertion counters.
pub open spec fn uploads_spec(
    custom_values: Seq<u32>,
    time: Time,
    mouse: Mouse,
    keys: Seq<bool>,
) -> Seq<UploadView> {
    let fixed = seq![
        UploadView { target: BufferId::Time, bytes: time_bytes_spec(time) },
        UploadView { target: BufferId::Mouse, bytes: mouse_bytes_spec(mouse) },
        UploadView { target: BufferId::Keys, bytes: packed_bytes(keys) },
        UploadView { target: BufferId::Debug, bytes: Seq::new(DEBUG_SIZE as nat, |i: int| 0u8) },
    ];
    if custom_values.len() > 0 {
        seq![UploadView { target: BufferId::Custom, bytes: words_le(custom_values) }] + fixed
    } else {
        fixed
    }
}

/// The buffers that a frame leaves as they were: the custom parameters
/// where there is no value to write.
pub open spec fn skipped_spec(custom_values: Seq<u32>) -> Seq<BufferId> {
    if custom_values.len() > 0 {
        Seq::empty()
    } else {
        seq![BufferId::Custom]
    }
}

/// The readback of a frame: every hundredth frame, counted from frame
/// zero, the counters are read back, with two timestamps for each pass
/// where the device takes them.
pub open spec fn readback_spec(
    frame: u32,
    passes: nat,
    timestamp_queries: bool,
    width: u32,
    height: u32,
) -> Option<Readback> {
    if frame % READBACK_PERIOD == 0 {
        Some(
            Readback {
                size: (DEBUG_SIZE + 2 * passes * TIMESTAMP_SIZE) as u64,
                counters_size: DEBUG_SIZE,
                query_count: if timestamp_queries {
                    Some((2 * passes) as u32)
                } else {
                    None
                },
                threads: (width * height) as u64,
            },
        )
    } else {
        None
    }
}

/// Divides with `num::Integer::div_ceil`, which for unsigned numbers is
/// the quotient, and one more where the division leaves a remainder. It
/// panics on a zero divisor.
#[verifier::external_body]
fn div_ceil(a: u32, b: u32) -> (q: u32)
    requires
        b > 0,
    ensures
        q == ceil_div(a as int, b as int),
{
    num::Integer::div_ceil(&a, &b)
}

/// Rounding up gives the least number of groups that covers the side.
pub proof fn lemma_ceil_div_covers(a: int, b: int)
    requires
        0 <= a,
        0 < b,
    ensures
        ceil_div(a, b) * b >= a,
        (ceil_div(a, b) - 1) * b < a || a == 0,
        0 <= ceil_div(a, b) <= a,
{
    vstd::arithmetic::div_mod::lemma_fundamental_div_mod(a, b);
    vstd::arithmetic::div_mod::lemma_div_pos_is_pos(a, b);
    vstd::arithmetic::div_mod::lemma_mod_bound(a, b);
    let q = a / b;
    let r = a % b;
    assert(a == b * q + r);
    assert((q + 1) * b == q * b + b) by (nonlinear_arith);
    assert((q - 1) * b == q * b - b) by (nonlinear_arith);
    assert(q * b == b * q) by (nonlinear_arith);
    assert(q <= a) by (nonlinear_arith)
        requires
            a == b * q + r,
            0 <= r,
            0 <= q,
            1 <= b,
    ;
    if r != 0 {
        assert(q + 1 <= a) by (nonlinear_arith)
            requires
                a == b * q + r,
                0 < r < b,
                0 <= q,
                1 <= b,
        ;
    }
}

/// The grid of a pass covers the viewport, and with one row or one
/// column of workgroups less it would not.
pub proof fn lemma_grid_covers_viewport(width: u32, height: u32, size: WorkgroupSize)
    requires
        tiles(size),
    ensures
        ({
            let grid = grid_spec(width, height, size, None);
            &&& grid.x * size.x >= width
            &&& grid.y * size.y >= height
            &&& width > 0 ==> (grid.x - 1) * size.x < width
            &&& height > 0 ==> (grid.y - 1) * size.y < height
        }),
{
    lemma_ceil_div_covers(width as int, size.x as int);
    lemma_ceil_div_covers(height as int, size.y as int);
}

/// The grid of workgroups of a pass over a viewport: the viewport's sides
/// divided by the workgroup's, rounded up, and one layer.
pub fn dispatch_grid(
    width: u32,
    height: u32,
    size: WorkgroupSize,
    timestamps: Option<Timestamps>,
) -> (dispatch: Dispatch)
    requires
        tiles(size),
    ensures
        dispatch == grid_spec(width, height, size, timestamps),
{
    Dispatch {
        x: div_ceil(width, size.x),
        y: div_ceil(height, size.y),
        z: 1,
        timestamps,
    }
}

/// Stages bytes for a buffer. With no byte to write nothing is staged
/// and the buffer is noted as skipped.
pub fn stage(
    uploads: &mut Vec<Upload>,
    skipped: &mut Vec<BufferId>,
    bytes: Vec<u8>,
    target: BufferId,
)
    ensures
        bytes@.len() > 0 ==> final(uploads).deep_view() == old(uploads).deep_view().push(
            UploadView { target, bytes: bytes@ },
        ) && final(skipped)@ == old(skipped)@,
        bytes@.len() == 0 ==> final(uploads).deep_view() == old(uploads).deep_view()
            && final(skipped)@ == old(skipped)@.push(target),
{
    let ghost before = uploads.deep_view();
    if bytes.len() == 0 {
        skipped.push(target);
        assert(uploads.deep_view() =~= before);
    } else {
        uploads.push(Upload { target, bytes });
        assert(uploads.deep_view() =~= before.push(UploadView { target, bytes: bytes@ }));
    }
}

/// Stages the uniform data of a frame.
pub fn stage_uniforms(
    custom_values: &Vec<u32>,
    time: &Time,
    mouse: &Mouse,
    keys: &Keys,
) -> (staged: (Vec<Upload>, Vec<BufferId>))
    requires
        keys.wf(),
    ensures
        staged.0.deep_view() == uploads_spec(custom_values@, *time, *mouse, keys@),
        staged.1@ == skipped_spec(custom_values@),
{
    let mut uploads: Vec<Upload> = Vec::new();
    let mut skipped: Vec<BufferId> = Vec::new();
    proof {
        lemma_words_le_len(custom_values@);
    }
    stage(&mut uploads, &mut skipped, custom_bytes(custom_values), BufferId::Custom);
    stage(&mut uploads, &mut skipped, time_bytes(time), BufferId::Time);
    stage(&mut uploads, &mut skipped, mouse_bytes(mouse), BufferId::Mouse);
    stage(&mut uploads, &mut skipped, keys.to_bytes(), BufferId::Keys);
    stage(&mut uploads, &mut skipped, zero_bytes(40), BufferId::Debug);
    assert(uploads.deep_view() =~= uploads_spec(custom_values@, *time, *mouse, keys@));
    assert(skipped@ =~= skipped_spec(custom_values@));
    (uploads, skipped)
}

/// Plans the dispatch of each pass of a pipeline set over a viewport.
pub fn plan_dispatches<P>(
    passes: &[Pass<P>],
    width: u32,
    height: u32,
    timestamp_queries: bool,
) -> (dispatches: Vec<Dispatch>)
    requires
        runnable(passes@),
    ensures
        dispatches@ == dispatches_spec(passes@, width, height, timestamp_queries),
{
    let mut dispatches: Vec<Dispatch> = Vec::new();
    let mut i: usize = 0;
    while i < passes.len()
        invariant
            i <= passes.len(),
            runnable(passes@),
            dispatches@ =~= dispatches_spec(passes@.take(i as int), width, height, timestamp_queries),
        decreases passes.len() - i,
    {
        let timestamps: Option<Timestamps> = if timestamp_queries {
            let before: u32 = 2 * (i as u32);
            Some(Timestamps { before, after: before + 1 })
        } else {
            None
        };
        dispatches.push(dispatch_grid(width, height, passes[i].workgroup_size, timestamps));
        i = i + 1;
    }
    assert(passes@.take(i as int) =~= passes@);
    dispatches
}

/// Plans the readback of a frame, if it has one.
pub fn plan_readback(
    frame: u32,
    passes: usize,
    timestamp_queries: bool,
    width: u32,
    height: u32,
) -> (readback: Option<Readback>)
    requires
        passes <= MAX_PASSES,
    ensures
        readback == readback_spec(frame, passes as nat, timestamp_queries, width, height),
{
    if frame % READBACK_PERIOD == 0 {
        let queries: u32 = 2 * (passes as u32);
        Some(
            Readback {
                size: DEBUG_SIZE + (queries as u64) * TIMESTAMP_SIZE,
                counters_size: DEBUG_SIZE,
                query_count: if timestamp_queries {
                    Some(queries)
                } else {
                    None
                },
                threads: pixel_count(width, height),
            },
        )
    } else {
        None
    }
}

} // verus!
