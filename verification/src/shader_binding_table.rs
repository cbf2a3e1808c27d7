//! The shader binding table of a ray tracing pipeline: its shader groups, the
//! size of the buffer that holds it, and where each shader group handle goes.
use vstd::prelude::*;
use crate::align::{aligned_up_32, aligned_up_64, align_up_32, align_up_64, lemma_aligned_up_64_bound, lemma_aligned_up_32_bound};

verus! {

/// The sizes and alignments of shader group handles of the device.
#[derive(Clone, Copy, PartialEq, Eq, Structural, Debug)]
pub struct RtPipelineProperties {
    pub shader_group_handle_size: u32,
    pub shader_group_handle_alignment: u32,
    pub shader_group_base_alignment: u32,
}

/// The marker of a shader group slot without a shader.
pub const SHADER_UNUSED: u32 = 0xffff_ffffu32;

/// A shader group of the pipeline: a general group for the ray generation and
/// the miss shaders, a triangle hit group for each closest hit shader.
#[derive(Clone, Copy, PartialEq, Eq, Structural, Debug)]
pub struct ShaderGroup {
    pub triangles_hit_group: bool,
    pub general_shader: u32,
    pub closest_hit_shader: u32,
}

/// A region of the table: where it starts in the buffer, the distance of its
/// records and its size.
#[derive(Clone, Copy, PartialEq, Eq, Structural, Debug)]
pub struct SbtRegion {
    pub offset: u64,
    pub stride: u64,
    pub size: u64,
}

/// A copy of one shader group handle from the handles the device returns into
/// the table.
#[derive(Clone, Copy, PartialEq, Eq, Structural, Debug)]
pub struct HandleCopy {
    pub src_offset: u64,
    pub dst_offset: u64,
    pub size: u32,
}

/// Where everything of the shader binding table goes.
#[derive(Clone, Debug)]
pub struct SbtLayout {
    pub handle_stride: u32,
    pub raygen: SbtRegion,
    pub closest_hit: SbtRegion,
    pub miss: SbtRegion,
    pub copies: Vec<HandleCopy>,
}

/// The shader groups: ray generation first, then the closest hit shaders, then
/// the miss shaders, each group holding the stage of the same position.
pub open spec fn shader_group_at(closest_hit_count: int, k: int) -> ShaderGroup {
    if k == 0 || k > closest_hit_count {
        ShaderGroup { triangles_hit_group: false, general_shader: k as u32, closest_hit_shader: SHADER_UNUSED }
    } else {
        ShaderGroup { triangles_hit_group: true, general_shader: SHADER_UNUSED, closest_hit_shader: k as u32 }
    }
}

/// The shader groups of a pipeline with a ray generation shader and the given
/// numbers of closest hit and miss shaders.
pub fn shader_groups(closest_hit_count: usize, miss_count: usize) -> (r: Vec<ShaderGroup>)
    requires
        1 + closest_hit_count + miss_count <= u32::MAX,
    ensures
        r.len() == 1 + closest_hit_count + miss_count,
        forall|k: int| 0 <= k < r.len() ==> #[trigger] r@[k] == shader_group_at(closest_hit_count as int, k),
{
    let total = 1 + closest_hit_count + miss_count;
    let mut r: Vec<ShaderGroup> = Vec::new();
    let mut k: usize = 0;
    while k < total
        invariant
            k <= total,
            total == 1 + closest_hit_count + miss_count,
            total <= u32::MAX,
            r.len() == k,
            forall|j: int| 0 <= j < k ==> #[trigger] r@[j] == shader_group_at(closest_hit_count as int, j),
        decreases total - k,
    {
        if k == 0 || k > closest_hit_count {
            r.push(ShaderGroup { triangles_hit_group: false, general_shader: k as u32, closest_hit_shader: SHADER_UNUSED });
        } else {
            r.push(ShaderGroup { triangles_hit_group: true, general_shader: SHADER_UNUSED, closest_hit_shader: k as u32 });
        }
        k = k + 1;
    }
    r
}

/// The distance of two handles in the table.
pub open spec fn handle_stride(p: RtPipelineProperties) -> u32 {
    aligned_up_32(p.shader_group_handle_size, p.shader_group_handle_alignment)
}

/// The size of the buffer the table needs: one record per shader, each
/// aligned to the base alignment of a group.
pub open spec fn rt_buffer_size(p: RtPipelineProperties, closest_hit_count: int, miss_count: int) -> int {
    aligned_up_32(handle_stride(p), p.shader_group_base_alignment) * (1 + closest_hit_count + miss_count)
}

/// The handle sizes of the device round up without overflow.
pub open spec fn properties_fit(p: RtPipelineProperties) -> bool {
    &&& p.shader_group_handle_size + p.shader_group_handle_alignment <= u32::MAX
    &&& p.shader_group_handle_size + p.shader_group_handle_alignment + p.shader_group_base_alignment <= u32::MAX
}

pub fn ray_tracing_buffer_size(p: RtPipelineProperties, closest_hit_count: usize, miss_count: usize) -> (r: u64)
    requires
        properties_fit(p),
        1 + closest_hit_count + miss_count <= u32::MAX,
    ensures
        r == rt_buffer_size(p, closest_hit_count as int, miss_count as int),
{
    let shader_count = 1 + closest_hit_count + miss_count;
    proof {
        lemma_aligned_up_32_bound(p.shader_group_handle_size, p.shader_group_handle_alignment);
    }
    let handle_stride = align_up_32(p.shader_group_handle_size, p.shader_group_handle_alignment);
    proof {
        lemma_aligned_up_32_bound(handle_stride, p.shader_group_base_alignment);
    }
    let record = align_up_32(handle_stride, p.shader_group_base_alignment);
    assert(record as int * shader_count as int <= u32::MAX as int * u32::MAX as int) by (nonlinear_arith)
        requires
            record <= u32::MAX,
            shader_count <= u32::MAX,
    ;
    (record as u64) * (shader_count as u64)
}

/// The start of the closest hit region: after the ray generation record,
/// aligned to the base alignment.
pub open spec fn closest_hit_start(p: RtPipelineProperties) -> u64 {
    aligned_up_64(handle_stride(p) as u64, p.shader_group_base_alignment as u64)
}

/// The start of the miss region: after the closest hit records, aligned.
pub open spec fn miss_start(p: RtPipelineProperties, closest_hit_count: int) -> u64 {
    aligned_up_64(
        (closest_hit_start(p) + closest_hit_count * handle_stride(p)) as u64,
        p.shader_group_base_alignment as u64,
    )
}

/// Where the handle of shader group `k` is copied: the handles come one
/// after the other; in the table each region's records are a stride apart.
pub open spec fn handle_copy_at(p: RtPipelineProperties, closest_hit_count: int, k: int) -> HandleCopy {
    let stride = handle_stride(p);
    let dst = if k == 0 {
        0
    } else if k <= closest_hit_count {
        closest_hit_start(p) + (k - 1) * stride
    } else {
        miss_start(p, closest_hit_count) + (k - 1 - closest_hit_count) * stride
    };
    HandleCopy {
        src_offset: (k * p.shader_group_handle_size) as u64,
        dst_offset: dst as u64,
        size: p.shader_group_handle_size,
    }
}

/// Everything in the table fits in 64 bits.
pub open spec fn table_fits(p: RtPipelineProperties, closest_hit_count: int, miss_count: int) -> bool {
    (closest_hit_count + miss_count + 3) * (p.shader_group_handle_size + p.shader_group_handle_alignment
        + p.shader_group_base_alignment) <= u64::MAX
}

proof fn lemma_mul_le(a: int, b: int, c: int, d: int)
    requires
        0 <= a <= b,
        0 <= c <= d,
    ensures
        a * c <= b * d,
{
    assert(a * c <= b * d) by (nonlinear_arith)
        requires
            0 <= a <= b,
            0 <= c <= d,
    ;
}

proof fn lemma_room(x: int, s: int, g: int, c: int)
    requires
        1 <= c <= x,
        s >= 0,
        g >= 0,
    ensures
        x * (s + g) >= x * s + c * g,
{
    assert(x * (s + g) == x * s + x * g) by (nonlinear_arith);
    assert(x * g >= c * g) by (nonlinear_arith)
        requires
            1 <= c <= x,
            g >= 0,
    ;
}

proof fn lemma_mul_step(k: int, s: int)
    ensures
        (k + 1) * s == k * s + s,
{
    assert((k + 1) * s == k * s + s) by (nonlinear_arith);
}

/// Lays out the shader binding table: the ray generation record, then the
/// closest hit records, then the miss records, each region starting at the
/// base alignment, and the copy of every handle into its record.
pub fn shader_binding_table_layout(p: RtPipelineProperties, closest_hit_count: usize, miss_count: usize) -> (r: SbtLayout)
    requires
        properties_fit(p),
        table_fits(p, closest_hit_count as int, miss_count as int),
    ensures
        r.handle_stride == handle_stride(p),
        r.raygen == (SbtRegion {
            offset: 0,
            stride: closest_hit_start(p),
            size: closest_hit_start(p),
        }),
        r.closest_hit == (SbtRegion {
            offset: closest_hit_start(p),
            stride: handle_stride(p) as u64,
            size: aligned_up_64(
                (closest_hit_count * handle_stride(p)) as u64,
                p.shader_group_base_alignment as u64,
            ),
        }),
        r.miss == (SbtRegion {
            offset: miss_start(p, closest_hit_count as int),
            stride: handle_stride(p) as u64,
            size: aligned_up_64((miss_count * handle_stride(p)) as u64, p.shader_group_base_alignment as u64),
        }),
        r.copies.len() == 1 + closest_hit_count + miss_count,
        forall|k: int| 0 <= k < r.copies.len() ==> #[trigger] r.copies@[k] == handle_copy_at(
            p,
            closest_hit_count as int,
            k,
        ),
{
    let hs = p.shader_group_handle_size;
    let ga = p.shader_group_base_alignment as u64;
    let ghost bound: int = (closest_hit_count + miss_count + 3) * (p.shader_group_handle_size
        + p.shader_group_handle_alignment + p.shader_group_base_alignment);
    let ghost unit: int = p.shader_group_handle_size + p.shader_group_handle_alignment
        + p.shader_group_base_alignment;
    proof {
        lemma_aligned_up_32_bound(hs, p.shader_group_handle_alignment);
    }
    let stride = align_up_32(hs, p.shader_group_handle_alignment);
    let stride64 = stride as u64;
    proof {
        lemma_aligned_up_64_bound(stride64, ga);
        lemma_mul_le(1, closest_hit_count + miss_count + 3, stride + ga, unit);
    }
    let first = align_up_64(stride64, ga);
    let raygen = SbtRegion { offset: 0, stride: first, size: first };
    let mut copies: Vec<HandleCopy> = Vec::new();
    copies.push(HandleCopy { src_offset: 0, dst_offset: 0, size: hs });
    let mut src_offset: u64 = hs as u64;
    let mut dst_offset: u64 = first;
    proof {
        lemma_mul_le(closest_hit_count as int, closest_hit_count + miss_count + 3, stride as int, unit);
        lemma_mul_le(closest_hit_count + 1, closest_hit_count + miss_count + 3, hs as int, unit);
    }
    let closest_hit_size_raw = (closest_hit_count as u64) * stride64;
    proof {
        lemma_room(closest_hit_count + 1, stride as int, ga as int, 1);
        lemma_mul_step(closest_hit_count as int, stride as int);
        lemma_mul_le(closest_hit_count + 1, closest_hit_count + miss_count + 3, stride + ga, unit);
        lemma_aligned_up_64_bound(closest_hit_size_raw, ga);
        lemma_mul_le(closest_hit_count + 1, closest_hit_count + miss_count + 3, stride + ga, unit);
        lemma_mul_step(closest_hit_count as int, stride as int);
    }
    let closest_hit = SbtRegion {
        offset: first,
        stride: stride64,
        size: align_up_64(closest_hit_size_raw, ga),
    };
    let mut k: usize = 0;
    while k < closest_hit_count
        invariant
            k <= closest_hit_count,
            stride == handle_stride(p),
            stride64 == stride,
            hs == p.shader_group_handle_size,
            ga == p.shader_group_base_alignment,
            first == closest_hit_start(p),
            first <= stride + ga,
            table_fits(p, closest_hit_count as int, miss_count as int),
            stride <= hs + p.shader_group_handle_alignment,
            unit == p.shader_group_handle_size + p.shader_group_handle_alignment + p.shader_group_base_alignment,
            bound == (closest_hit_count + miss_count + 3) * unit,
            bound <= u64::MAX,
            src_offset == (k + 1) * hs,
            dst_offset == first + k * stride,
            copies.len() == k + 1,
            forall|j: int| 0 <= j < copies.len() ==> #[trigger] copies@[j] == handle_copy_at(
                p,
                closest_hit_count as int,
                j,
            ),
        decreases closest_hit_count - k,
    {
        proof {
            lemma_mul_le(k + 2, closest_hit_count + miss_count + 3, hs as int, unit);
            lemma_mul_step(k + 1, hs as int);
            lemma_mul_step(k as int, stride as int);
            lemma_mul_step(k + 1, stride as int);
            lemma_room(k + 2, stride as int, ga as int, 1);
            lemma_mul_le(k + 2, closest_hit_count + miss_count + 3, stride + ga, unit);
        }
        copies.push(HandleCopy { src_offset, dst_offset, size: hs });
        src_offset = src_offset + hs as u64;
        dst_offset = dst_offset + stride64;
        k = k + 1;
    }
    proof {
        lemma_mul_step(closest_hit_count as int, stride as int);
        lemma_room(closest_hit_count + 2, stride as int, ga as int, 2);
        lemma_mul_step(closest_hit_count + 1, stride as int);
        lemma_mul_le(closest_hit_count + 2, closest_hit_count + miss_count + 3, stride + ga, unit);
        lemma_aligned_up_64_bound(dst_offset, ga);
    }
    dst_offset = align_up_64(dst_offset, ga);
    let miss_begin = dst_offset;
    proof {
        lemma_mul_le(miss_count as int, closest_hit_count + miss_count + 3, stride as int, unit);
    }
    let miss_size_raw = (miss_count as u64) * stride64;
    proof {
        lemma_room(miss_count + 1, stride as int, ga as int, 1);
        lemma_mul_step(miss_count as int, stride as int);
        lemma_mul_le(miss_count + 1, closest_hit_count + miss_count + 3, stride + ga, unit);
        lemma_aligned_up_64_bound(miss_size_raw, ga);
        lemma_mul_le(miss_count + 1, closest_hit_count + miss_count + 3, stride + ga, unit);
        lemma_mul_step(miss_count as int, stride as int);
    }
    let miss = SbtRegion { offset: miss_begin, stride: stride64, size: align_up_64(miss_size_raw, ga) };
    let mut m: usize = 0;
    while m < miss_count
        invariant
            m <= miss_count,
            stride == handle_stride(p),
            stride64 == stride,
            hs == p.shader_group_handle_size,
            ga == p.shader_group_base_alignment,
            table_fits(p, closest_hit_count as int, miss_count as int),
            miss_begin == miss_start(p, closest_hit_count as int),
            miss_begin <= first + closest_hit_count * stride + ga,
            first <= stride + ga,
            stride <= hs + p.shader_group_handle_alignment,
            unit == p.shader_group_handle_size + p.shader_group_handle_alignment + p.shader_group_base_alignment,
            bound == (closest_hit_count + miss_count + 3) * unit,
            bound <= u64::MAX,
            src_offset == (closest_hit_count + m + 1) * hs,
            dst_offset == miss_begin + m * stride,
            copies.len() == closest_hit_count + m + 1,
            forall|j: int| 0 <= j < copies.len() ==> #[trigger] copies@[j] == handle_copy_at(
                p,
                closest_hit_count as int,
                j,
            ),
        decreases miss_count - m,
    {
        proof {
            let x = closest_hit_count + m + 2;
            lemma_mul_le(x, closest_hit_count + miss_count + 3, hs as int, unit);
            lemma_mul_step(closest_hit_count + m + 1, hs as int);
            lemma_room(x, stride as int, ga as int, 2);
            lemma_mul_le(x, closest_hit_count + miss_count + 3, stride + ga, unit);
            assert(closest_hit_count * stride + (m + 1) * stride + stride == x * stride) by (nonlinear_arith)
                requires
                    x == closest_hit_count + m + 2,
            ;
            lemma_mul_step(m as int, stride as int);
        }
        copies.push(HandleCopy { src_offset, dst_offset, size: hs });
        src_offset = src_offset + hs as u64;
        dst_offset = dst_offset + stride64;
        m = m + 1;
    }
    SbtLayout { handle_stride: stride, raygen, closest_hit, miss, copies }
}

} // verus!
