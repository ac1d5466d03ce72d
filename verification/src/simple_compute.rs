//! The indirection resolver: a kernel that combines a scalar passed
//! directly, a scalar read from a run, and a scalar reached through a record.

use crate::descriptor::{BufferView, Descriptors, DescriptorsView, StrongDesc, TransientDesc};
use crate::fixed::{UVec3, ONE};
use vstd::prelude::*;

verus! {

/// A record with one strong reference to a buffer of a single scalar. The
/// table keeps that buffer alive for as long as a buffer with this record is.
#[derive(Copy, Clone, Debug)]
pub struct Indirection {
    pub c: StrongDesc,
}

/// The parameters of one dispatch of the kernel.
#[derive(Copy, Clone, Debug)]
pub struct Param {
    /// A scalar passed directly.
    pub a: i32,
    /// A run of scalars, one for each lane.
    pub b: TransientDesc,
    /// A buffer of one record, which leads to the scalar `c`.
    pub indirection: TransientDesc,
    /// The run of results, one for each lane.
    pub out: TransientDesc,
}

/// The value of `a * b + c`, exact at double precision.
pub open spec fn add_calculation_spec(a: i32, b: i32, c: i32) -> int {
    a * b + c * ONE
}

proof fn lemma_product_bounds(a: int, b: int)
    by (nonlinear_arith)
    requires
        -0x8000_0000 <= a < 0x8000_0000,
        -0x8000_0000 <= b < 0x8000_0000,
    ensures
        -0x4000_0000_0000_0000 < a * b <= 0x4000_0000_0000_0000,
{
}

/// Computes `a * b + c` at double precision. Two scalars have a product
/// that fits, whatever they are.
pub fn add_calculation(a: i32, b: i32, c: i32) -> (result: i64)
    ensures
        result == add_calculation_spec(a, b, c),
{
    proof {
        lemma_product_bounds(a as int, b as int);
        lemma_product_bounds(c as int, ONE as int);
    }
    let product: i64 = (a as i64) * (b as i64);
    let shifted: i64 = (c as i64) * (ONE as i64);
    product + shifted
}

impl Param {
    /// Whether the three references are valid, lead to buffers of the right
    /// kinds, and the two runs have at least `lanes` elements.
    pub open spec fn valid_for(&self, table: DescriptorsView, lanes: int) -> bool {
        &&& table.valid(self.b)
        &&& table.data(self.b.id()) is Scalars
        &&& lanes <= table.scalars(self.b.id()).len()
        &&& table.valid(self.indirection)
        &&& table.data(self.indirection.id()) is Indirection
        &&& table.valid(self.out)
        &&& table.data(self.out.id()) is Output
        &&& lanes <= table.output(self.out.id()).len()
    }

    /// What the lane `lane` computes: `a * b[lane] + c`.
    pub open spec fn lane_result(&self, table: DescriptorsView, lane: int) -> i64 {
        add_calculation_spec(
            self.a,
            table.scalars(self.b.id())[lane],
            table.resolve(self.indirection.id()),
        ) as i64
    }

    /// The run of results after the lanes below `lanes` have run.
    pub open spec fn results(&self, table: DescriptorsView, lanes: int) -> Seq<i64> {
        Seq::new(
            table.output(self.out.id()).len(),
            |lane: int|
                if lane < lanes {
                    self.lane_result(table, lane)
                } else {
                    table.output(self.out.id())[lane]
                },
        )
    }

    /// The table after the lanes below `lanes` have run.
    pub open spec fn dispatched(&self, table: DescriptorsView, lanes: int) -> DescriptorsView {
        table.with_data(self.out.id(), BufferView::Output(self.results(table, lanes)))
    }

    /// Decides `valid_for`, for a caller that cannot know it otherwise.
    pub fn is_valid_for(&self, descriptors: &Descriptors, lanes: usize) -> (valid: bool)
        ensures
            valid == self.valid_for(descriptors@, lanes as int),
    {
        let enough_b = match descriptors.scalars_len(&self.b) {
            Some(len) => lanes <= len,
            None => false,
        };
        let enough_out = match descriptors.output_len(&self.out) {
            Some(len) => lanes <= len,
            None => false,
        };
        enough_b && descriptors.has_indirection(&self.indirection) && enough_out
    }

    /// What one lane reads is what it would read after any rewriting of the
    /// run of results.
    proof fn lemma_results_do_not_feed_back(
        &self,
        table: DescriptorsView,
        lanes: int,
        values: Seq<i64>,
        lane: int,
    )
        requires
            table.wf(),
            self.valid_for(table, lanes),
            values.len() == table.output(self.out.id()).len(),
        ensures
            table.with_data(self.out.id(), BufferView::Output(values)).wf(),
            self.valid_for(table.with_data(self.out.id(), BufferView::Output(values)), lanes),
            self.lane_result(table.with_data(self.out.id(), BufferView::Output(values)), lane)
                == self.lane_result(table, lane),
    {
        table.lemma_with_data_wf(self.out.id(), BufferView::Output(values));
        table.lemma_store_keeps_resolution(
            self.out.id(),
            BufferView::Output(values),
            self.indirection.id(),
        );
    }
}

/// One lane of the kernel: reads `a` from the parameters, `b` at its own
/// index, and `c` through the record, and writes `a * b + c` at its own
/// index. The index is the first coordinate of the workgroup.
pub fn simple_compute(descriptors: &mut Descriptors, param: &Param, wg_id: UVec3)
    requires
        old(descriptors).wf(),
        param.valid_for(old(descriptors)@, wg_id.x + 1),
    ensures
        final(descriptors).wf(),
        final(descriptors)@ == old(descriptors)@.with_data(
            param.out.id(),
            BufferView::Output(
                old(descriptors)@.output(param.out.id()).update(
                    wg_id.x as int,
                    param.lane_result(old(descriptors)@, wg_id.x as int),
                ),
            ),
        ),
        final(descriptors)@.output(param.out.id())[wg_id.x as int] == param.a * old(
            descriptors,
        )@.scalars(param.b.id())[wg_id.x as int] + old(descriptors)@.resolve(
            param.indirection.id(),
        ) * ONE,
{
    let a = param.a;
    let index = wg_id.x as usize;
    let b = descriptors.load_scalars(&param.b, index);
    let indirection = descriptors.load_indirection(&param.indirection);
    proof {
        assert(descriptors@.holds_reference(param.indirection.id(), indirection.c.id()));
    }
    let c = descriptors.load_scalar(&indirection.c);
    let result = add_calculation(a, b, c);
    descriptors.store(&param.out, index, result);
}

/// Runs the lanes of one row of the grid.
fn dispatch_row(descriptors: &mut Descriptors, param: &Param, lanes: u32, y: u32, z: u32)
    requires
        old(descriptors).wf(),
        param.valid_for(old(descriptors)@, lanes as int),
    ensures
        final(descriptors).wf(),
        final(descriptors)@ == param.dispatched(old(descriptors)@, lanes as int),
{
    let ghost start = descriptors@;
    let ghost out = param.out.id();
    let mut x: u32 = 0;
    proof {
        assert(param.results(start, 0) =~= start.output(out));
        assert(start.with_data(out, BufferView::Output(start.output(out))).buffers
            =~= start.buffers);
    }
    while x < lanes
        invariant
            x <= lanes,
            start.wf(),
            param.valid_for(start, lanes as int),
            out == param.out.id(),
            descriptors.wf(),
            descriptors@ == param.dispatched(start, x as int),
        decreases lanes - x,
    {
        proof {
            param.lemma_results_do_not_feed_back(
                start,
                lanes as int,
                param.results(start, x as int),
                x as int,
            );
        }
        let ghost before = descriptors@;
        simple_compute(descriptors, param, UVec3::new(x, y, z));
        proof {
            let written = before.output(out).update(x as int, param.lane_result(before, x as int));
            assert(written =~= param.results(start, x + 1));
            assert(descriptors@.buffers =~= param.dispatched(start, x + 1).buffers);
        }
        x += 1;
    }
}

/// Runs the kernel once for every workgroup of a grid of `groups.x` by
/// `groups.y` by `groups.z`. Every lane `i` below `groups.x` ends with
/// `out[i] = a * b[i] + c`; the rest of `out`, and every other buffer, stay
/// as they were. Workgroups that differ only in their second or third
/// coordinate write the same value to the same place.
pub fn dispatch(descriptors: &mut Descriptors, groups: UVec3, param: &Param)
    requires
        old(descriptors).wf(),
        param.valid_for(old(descriptors)@, groups.x as int),
    ensures
        final(descriptors).wf(),
        groups.y == 0 || groups.z == 0 ==> final(descriptors)@ == old(descriptors)@,
        groups.y > 0 && groups.z > 0 ==> final(descriptors)@ == param.dispatched(
            old(descriptors)@,
            groups.x as int,
        ),
        groups.y > 0 && groups.z > 0 ==> forall|lane: int|
            0 <= lane < groups.x ==> #[trigger] final(descriptors)@.output(param.out.id())[lane]
                == param.a * old(descriptors)@.scalars(param.b.id())[lane] + old(
                descriptors,
            )@.resolve(param.indirection.id()) * ONE,
{
    let ghost start = descriptors@;
    let ghost done = param.dispatched(start, groups.x as int);
    proof {
        param.lemma_results_do_not_feed_back(
            start,
            groups.x as int,
            param.results(start, groups.x as int),
            0,
        );
        assert forall|lane: int| 0 <= lane < groups.x implies #[trigger] done.output(
            param.out.id(),
        )[lane] == param.a * start.scalars(param.b.id())[lane] + start.resolve(
            param.indirection.id(),
        ) * ONE by {
            lemma_product_bounds(param.a as int, start.scalars(param.b.id())[lane] as int);
        }
        assert forall|lane: int| 0 <= lane < done.output(param.out.id()).len() implies param.results(
            done,
            groups.x as int,
        )[lane] == param.results(start, groups.x as int)[lane] by {
            param.lemma_results_do_not_feed_back(
                start,
                groups.x as int,
                param.results(start, groups.x as int),
                lane,
            );
        }
        assert(param.results(done, groups.x as int) =~= param.results(start, groups.x as int));
        assert(param.dispatched(done, groups.x as int).buffers =~= done.buffers);
    }
    let mut z: u32 = 0;
    while z < groups.z
        invariant
            z <= groups.z,
            start.wf(),
            done.wf(),
            done == param.dispatched(start, groups.x as int),
            param.dispatched(done, groups.x as int) == done,
            param.valid_for(start, groups.x as int),
            param.valid_for(done, groups.x as int),
            descriptors.wf(),
            descriptors@ == (if z > 0 && groups.y > 0 {
                done
            } else {
                start
            }),
        decreases groups.z - z,
    {
        let mut y: u32 = 0;
        while y < groups.y
            invariant
                y <= groups.y,
                z < groups.z,
                start.wf(),
                done.wf(),
                done == param.dispatched(start, groups.x as int),
                param.dispatched(done, groups.x as int) == done,
                param.valid_for(start, groups.x as int),
                param.valid_for(done, groups.x as int),
                descriptors.wf(),
                descriptors@ == (if (z > 0 && groups.y > 0) || y > 0 {
                    done
                } else {
                    start
                }),
            decreases groups.y - y,
        {
            dispatch_row(descriptors, param, groups.x, y, z);
            y += 1;
        }
        z += 1;
    }
}

} // verus!
