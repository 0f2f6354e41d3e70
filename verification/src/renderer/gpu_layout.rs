//! The records that the compute shader reads, word for word.
//!
//! Every record is a whole number of 16-byte groups. Its fields stand in
//! the order of the shader's declaration and the padding is written out as
//! zero words, so that the bytes handed to the device are a function of the
//! record alone.

use vstd::prelude::*;
use crate::math::color::Color;
use crate::math::matrix::Mat4;
use crate::math::scalar::Scalar;
use crate::math::vector::{Vec3, Vec4};

verus! {

/// Words in a camera record: a position and three matrices.
pub const CAMERA_WORDS: usize = 52;

/// Words in a sphere record.
pub const SPHERE_WORDS: usize = 8;

/// Words in a material record.
pub const MATERIAL_WORDS: usize = 8;

/// Words in a point-light record.
pub const LIGHT_WORDS: usize = 12;

/// The four words of a vector, `x` first.
pub open spec fn vec4_words(v: Vec4) -> Seq<u32> {
    seq![v.x.bits, v.y.bits, v.z.bits, v.w.bits]
}

/// The sixteen words of a matrix, column by column.
pub open spec fn mat4_words(m: Mat4) -> Seq<u32> {
    vec4_words(m.x_axis) + vec4_words(m.y_axis) + vec4_words(m.z_axis) + vec4_words(m.w_axis)
}

/// The four bytes of a word, lowest first.
pub open spec fn word_bytes(w: u32) -> Seq<u8> {
    seq![
        (w % 256) as u8,
        ((w / 256) % 256) as u8,
        ((w / 65536) % 256) as u8,
        (w / 16777216) as u8,
    ]
}

/// The bytes of a run of words, each word lowest byte first.
pub open spec fn le_bytes(words: Seq<u32>) -> Seq<u8>
    decreases words.len(),
{
    if words.len() == 0 {
        Seq::empty()
    } else {
        le_bytes(words.drop_last()) + word_bytes(words.last())
    }
}

/// A run of words takes four bytes for each.
pub proof fn lemma_le_bytes_len(words: Seq<u32>)
    ensures
        le_bytes(words).len() == 4 * words.len(),
    decreases words.len(),
{
    if words.len() > 0 {
        lemma_le_bytes_len(words.drop_last());
    }
}

/// Byte `4 i + j` of a run of words is byte `j` of word `i`.
pub proof fn lemma_le_bytes_index(words: Seq<u32>, i: int, j: int)
    requires
        0 <= i < words.len(),
        0 <= j < 4,
    ensures
        le_bytes(words).len() == 4 * words.len(),
        le_bytes(words)[4 * i + j] == word_bytes(words[i])[j],
    decreases words.len(),
{
    lemma_le_bytes_len(words);
    lemma_le_bytes_len(words.drop_last());
    if i < words.len() - 1 {
        lemma_le_bytes_index(words.drop_last(), i, j);
    }
}

fn push_vec4(out: &mut Vec<u32>, v: Vec4)
    ensures
        final(out)@ == old(out)@ + vec4_words(v),
{
    out.push(v.x.bits);
    out.push(v.y.bits);
    out.push(v.z.bits);
    out.push(v.w.bits);
    assert(out@ =~= old(out)@ + vec4_words(v));
}

fn push_mat4(out: &mut Vec<u32>, m: Mat4)
    ensures
        final(out)@ == old(out)@ + mat4_words(m),
{
    push_vec4(out, m.x_axis);
    push_vec4(out, m.y_axis);
    push_vec4(out, m.z_axis);
    push_vec4(out, m.w_axis);
    assert(out@ =~= old(out)@ + mat4_words(m));
}

/// The bytes of `words`, each word lowest byte first.
pub fn words_to_bytes(words: &Vec<u32>) -> (bytes: Vec<u8>)
    ensures
        bytes@ == le_bytes(words@),
        bytes@.len() == 4 * words@.len(),
{
    let mut bytes: Vec<u8> = Vec::new();
    let mut i: usize = 0;
    while i < words.len()
        invariant
            i <= words@.len(),
            bytes@ == le_bytes(words@.take(i as int)),
        decreases words@.len() - i,
    {
        let w: u32 = words[i];
        bytes.push((w % 256) as u8);
        bytes.push(((w / 256) % 256) as u8);
        bytes.push(((w / 65536) % 256) as u8);
        bytes.push((w / 16777216) as u8);
        proof {
            let next = words@.take(i + 1);
            assert(next.drop_last() =~= words@.take(i as int));
            assert(next.last() == w);
            assert(bytes@ =~= le_bytes(words@.take(i as int)) + word_bytes(w));
        }
        i = i + 1;
    }
    proof {
        assert(words@.take(words@.len() as int) =~= words@);
        lemma_le_bytes_len(words@);
    }
    bytes
}

/// A record of a storage or uniform buffer.
pub trait GpuRecord: Sized {
    /// The words of the record, in the order of the shader's declaration.
    spec fn words(&self) -> Seq<u32>;

    /// The number of words in every record of this type.
    spec fn word_count() -> nat;

    proof fn lemma_word_count(&self)
        ensures
            self.words().len() == Self::word_count(),
    ;

    /// Appends the record's words to `out`.
    fn append_words(&self, out: &mut Vec<u32>)
        ensures
            final(out)@ == old(out)@ + self.words(),
    ;
}

/// The words of a run of records, one record after the other.
pub open spec fn stream<R: GpuRecord>(records: Seq<R>) -> Seq<u32>
    decreases records.len(),
{
    if records.len() == 0 {
        Seq::empty()
    } else {
        stream(records.drop_last()) + records.last().words()
    }
}

/// A run of `n` records takes `n` times the record's words.
pub proof fn lemma_stream_len<R: GpuRecord>(records: Seq<R>)
    ensures
        stream(records).len() == records.len() * R::word_count(),
    decreases records.len(),
{
    if records.len() > 0 {
        lemma_stream_len(records.drop_last());
        records.last().lemma_word_count();
        assert((records.len() - 1) * R::word_count() + R::word_count() == records.len()
            * R::word_count()) by (nonlinear_arith);
    }
}

/// Word `j` of record `i` stands at place `i * word_count + j`.
pub proof fn lemma_stream_index<R: GpuRecord>(records: Seq<R>, i: int, j: int)
    requires
        0 <= i < records.len(),
        0 <= j < R::word_count(),
    ensures
        0 <= i * R::word_count() + j < stream(records).len(),
        stream(records)[i * R::word_count() + j] == records[i].words()[j],
    decreases records.len(),
{
    let k = R::word_count() as int;
    lemma_stream_len(records);
    lemma_stream_len(records.drop_last());
    records.last().lemma_word_count();
    records[i].lemma_word_count();
    assert((records.len() - 1) * k + k == records.len() * k) by (nonlinear_arith);
    if i < records.len() - 1 {
        lemma_stream_index(records.drop_last(), i, j);
        assert(i * k + j < (records.len() - 1) * k) by (nonlinear_arith)
            requires
                0 <= i < records.len() - 1,
                0 <= j < k,
        ;
    } else {
        assert(i * k + j >= 0) by (nonlinear_arith)
            requires
                0 <= i,
                0 <= j,
                0 <= k,
        ;
    }
}

/// Where a record's words stand in the bytes of its buffer: byte `b` of
/// word `j` of record `i` is byte `4 (i * word_count + j) + b` of the
/// buffer. With the words of each record in the order of the shader's
/// declaration, this is the offset of every field.
pub proof fn lemma_field_offset<R: GpuRecord>(records: Seq<R>, i: int, j: int, b: int)
    requires
        0 <= i < records.len(),
        0 <= j < R::word_count(),
        0 <= b < 4,
    ensures
        0 <= 4 * (i * R::word_count() + j) + b < le_bytes(stream(records)).len(),
        le_bytes(stream(records))[4 * (i * R::word_count() + j) + b] == word_bytes(
            records[i].words()[j],
        )[b],
{
    lemma_stream_index(records, i, j);
    lemma_le_bytes_index(stream(records), i * R::word_count() + j, b);
}

/// The words of `records`, one record after the other.
pub fn to_words<R: GpuRecord>(records: &Vec<R>) -> (out: Vec<u32>)
    ensures
        out@ == stream(records@),
        out@.len() == records@.len() * R::word_count(),
{
    let mut out: Vec<u32> = Vec::new();
    let mut i: usize = 0;
    while i < records.len()
        invariant
            i <= records@.len(),
            out@ == stream(records@.take(i as int)),
        decreases records@.len() - i,
    {
        records[i].append_words(&mut out);
        proof {
            let next = records@.take(i + 1);
            assert(next.drop_last() =~= records@.take(i as int));
            assert(next.last() == records@[i as int]);
        }
        i = i + 1;
    }
    proof {
        assert(records@.take(records@.len() as int) =~= records@);
        lemma_stream_len(records@);
    }
    out
}

/// The bytes of a buffer that holds `records`.
pub fn encode<R: GpuRecord>(records: &Vec<R>) -> (bytes: Vec<u8>)
    ensures
        bytes@ == le_bytes(stream(records@)),
        bytes@.len() == 4 * (records@.len() * R::word_count()),
{
    let words = to_words(records);
    words_to_bytes(&words)
}

/// The camera as the shader sees it: 208 bytes.
#[derive(Clone, Copy, Debug, PartialEq, Eq, Structural)]
pub struct CameraGpu {
    pub position: Vec4,
    pub view_projection: Mat4,
    pub inv_projection: Mat4,
    pub inv_view: Mat4,
}

/// A sphere as the shader sees it: 32 bytes, the last 8 of them padding.
#[derive(Clone, Copy, Debug, PartialEq, Eq, Structural)]
pub struct SphereGpu {
    pub center: Vec4,
    pub radius: Scalar,
    pub material_index: u32,
}

/// A material as the shader sees it: 32 bytes, the last 8 of them padding.
#[derive(Clone, Copy, Debug, PartialEq, Eq, Structural)]
pub struct MaterialGpu {
    pub color: Vec4,
    pub material_type: u32,
    pub smoothness: Scalar,
}

/// A point light as the shader sees it: 48 bytes, the last 8 of them
/// padding.
#[derive(Clone, Copy, Debug, PartialEq, Eq, Structural)]
pub struct PointLightGpu {
    pub position: Vec4,
    pub color: Vec4,
    pub intensity: Scalar,
    pub range: Scalar,
}

impl CameraGpu {
    /// A camera at the origin that looks through identity matrices.
    pub open spec fn resting() -> CameraGpu {
        CameraGpu {
            position: Vec4 {
                x: Scalar { bits: 0 },
                y: Scalar { bits: 0 },
                z: Scalar { bits: 0 },
                w: Scalar { bits: 0x3f80_0000 },
            },
            view_projection: Mat4::unit(),
            inv_projection: Mat4::unit(),
            inv_view: Mat4::unit(),
        }
    }

    /// The record of a camera at `position`; the fourth component of the
    /// position is 1.
    pub fn new(position: Vec3, view_projection: Mat4, inv_projection: Mat4, inv_view: Mat4) -> (c:
        CameraGpu)
        ensures
            c == (CameraGpu {
                position: Vec4 {
                    x: position.x,
                    y: position.y,
                    z: position.z,
                    w: Scalar { bits: 0x3f80_0000 },
                },
                view_projection,
                inv_projection,
                inv_view,
            }),
    {
        CameraGpu {
            position: Vec4::new(position.x, position.y, position.z, Scalar::one()),
            view_projection,
            inv_projection,
            inv_view,
        }
    }

    /// The record that a renderer starts with.
    pub fn initial() -> (c: CameraGpu)
        ensures
            c == CameraGpu::resting(),
    {
        CameraGpu::new(Vec3::zero(), Mat4::identity(), Mat4::identity(), Mat4::identity())
    }
}

impl GpuRecord for CameraGpu {
    open spec fn words(&self) -> Seq<u32> {
        vec4_words(self.position) + mat4_words(self.view_projection) + mat4_words(
            self.inv_projection,
        ) + mat4_words(self.inv_view)
    }

    open spec fn word_count() -> nat {
        52
    }

    proof fn lemma_word_count(&self) {
    }

    fn append_words(&self, out: &mut Vec<u32>) {
        push_vec4(out, self.position);
        push_mat4(out, self.view_projection);
        push_mat4(out, self.inv_projection);
        push_mat4(out, self.inv_view);
        assert(out@ =~= old(out)@ + self.words());
    }
}

impl SphereGpu {
    /// A sphere of radius 0 at the origin: it fills a buffer and is never
    /// hit.
    pub open spec fn inert() -> SphereGpu {
        SphereGpu {
            center: Vec4 {
                x: Scalar { bits: 0 },
                y: Scalar { bits: 0 },
                z: Scalar { bits: 0 },
                w: Scalar { bits: 0 },
            },
            radius: Scalar { bits: 0 },
            material_index: 0,
        }
    }

    /// The record of a sphere; the fourth component of the centre is 0.
    pub open spec fn of(center: Vec3, radius: Scalar, material_index: u32) -> SphereGpu {
        SphereGpu {
            center: Vec4 { x: center.x, y: center.y, z: center.z, w: Scalar { bits: 0 } },
            radius,
            material_index,
        }
    }

    pub fn new(center: Vec3, radius: Scalar, material_index: u32) -> (s: SphereGpu)
        ensures
            s == SphereGpu::of(center, radius, material_index),
    {
        SphereGpu {
            center: Vec4::new(center.x, center.y, center.z, Scalar::zero()),
            radius,
            material_index,
        }
    }

    pub fn placeholder() -> (s: SphereGpu)
        ensures
            s == SphereGpu::inert(),
    {
        SphereGpu::new(Vec3::zero(), Scalar::zero(), 0)
    }

    /// The unit sphere at the origin with material 0, which a renderer
    /// starts with.
    pub fn initial() -> (s: SphereGpu)
        ensures
            s == SphereGpu::of(Vec3::origin(), Scalar { bits: 0x3f80_0000 }, 0),
    {
        SphereGpu::new(Vec3::zero(), Scalar::one(), 0)
    }
}

impl GpuRecord for SphereGpu {
    open spec fn words(&self) -> Seq<u32> {
        vec4_words(self.center) + seq![self.radius.bits, self.material_index, 0u32, 0u32]
    }

    open spec fn word_count() -> nat {
        8
    }

    proof fn lemma_word_count(&self) {
    }

    fn append_words(&self, out: &mut Vec<u32>) {
        push_vec4(out, self.center);
        out.push(self.radius.bits);
        out.push(self.material_index);
        out.push(0);
        out.push(0);
        assert(out@ =~= old(out)@ + self.words());
    }
}

impl MaterialGpu {
    /// Magenta, diffuse: the material of index 0, which stands for a
    /// material that is missing.
    pub open spec fn missing() -> MaterialGpu {
        MaterialGpu {
            color: Vec4 {
                x: Scalar { bits: 0x3f80_0000 },
                y: Scalar { bits: 0 },
                z: Scalar { bits: 0x3f80_0000 },
                w: Scalar { bits: 0x3f80_0000 },
            },
            material_type: 0,
            smoothness: Scalar { bits: 0x3f00_0000 },
        }
    }

    /// The record of a diffuse material of the given colour.
    pub open spec fn of(color: Color, smoothness: Scalar) -> MaterialGpu {
        MaterialGpu {
            color: Vec4 { x: color.r, y: color.g, z: color.b, w: color.a },
            material_type: 0,
            smoothness,
        }
    }

    pub fn new(color: Color, smoothness: Scalar) -> (m: MaterialGpu)
        ensures
            m == MaterialGpu::of(color, smoothness),
    {
        MaterialGpu { color: color.to_vec4(), material_type: 0, smoothness }
    }

    pub fn fallback() -> (m: MaterialGpu)
        ensures
            m == MaterialGpu::missing(),
    {
        MaterialGpu::new(
            Color::from_bits(0x3f80_0000, 0, 0x3f80_0000, 0x3f80_0000),
            Scalar::from_bits(0x3f00_0000),
        )
    }

    /// Light grey `(0.8, 0.8, 0.8)`, which a renderer starts with.
    pub fn initial() -> (m: MaterialGpu)
        ensures
            m == MaterialGpu::of(
                Color::of_bits(0x3f4c_cccd, 0x3f4c_cccd, 0x3f4c_cccd, 0x3f80_0000),
                Scalar { bits: 0x3f00_0000 },
            ),
    {
        MaterialGpu::new(
            Color::from_bits(0x3f4c_cccd, 0x3f4c_cccd, 0x3f4c_cccd, 0x3f80_0000),
            Scalar::from_bits(0x3f00_0000),
        )
    }
}

impl GpuRecord for MaterialGpu {
    open spec fn words(&self) -> Seq<u32> {
        vec4_words(self.color) + seq![self.material_type, self.smoothness.bits, 0u32, 0u32]
    }

    open spec fn word_count() -> nat {
        8
    }

    proof fn lemma_word_count(&self) {
    }

    fn append_words(&self, out: &mut Vec<u32>) {
        push_vec4(out, self.color);
        out.push(self.material_type);
        out.push(self.smoothness.bits);
        out.push(0);
        out.push(0);
        assert(out@ =~= old(out)@ + self.words());
    }
}

impl PointLightGpu {
    /// A black light of intensity 0 and range 0: it fills a buffer and
    /// lights nothing.
    pub open spec fn inert() -> PointLightGpu {
        let o = Scalar { bits: 0 };
        PointLightGpu {
            position: Vec4 { x: o, y: o, z: o, w: o },
            color: Vec4 { x: o, y: o, z: o, w: o },
            intensity: o,
            range: o,
        }
    }

    /// The record of a point light; the fourth component of the position
    /// is 0.
    pub open spec fn of(position: Vec3, color: Color, intensity: Scalar, range: Scalar)
        -> PointLightGpu {
        PointLightGpu {
            position: Vec4 { x: position.x, y: position.y, z: position.z, w: Scalar { bits: 0 } },
            color: Vec4 { x: color.r, y: color.g, z: color.b, w: color.a },
            intensity,
            range,
        }
    }

    pub fn new(position: Vec3, color: Color, intensity: Scalar, range: Scalar) -> (l: PointLightGpu)
        ensures
            l == PointLightGpu::of(position, color, intensity, range),
    {
        PointLightGpu {
            position: Vec4::new(position.x, position.y, position.z, Scalar::zero()),
            color: color.to_vec4(),
            intensity,
            range,
        }
    }

    pub fn placeholder() -> (l: PointLightGpu)
        ensures
            l == PointLightGpu::inert(),
    {
        PointLightGpu::new(Vec3::zero(), Color::transparent(), Scalar::zero(), Scalar::zero())
    }

    /// A white light at `(0, 10, 0)` of intensity 100 and range 50, which
    /// a renderer starts with.
    pub fn initial() -> (l: PointLightGpu)
        ensures
            l == PointLightGpu::of(
                Vec3 { x: Scalar { bits: 0 }, y: Scalar { bits: 0x4120_0000 }, z: Scalar { bits: 0 } },
                Color::white(),
                Scalar { bits: 0x42c8_0000 },
                Scalar { bits: 0x4248_0000 },
            ),
    {
        PointLightGpu::new(
            Vec3::new(Scalar::zero(), Scalar::from_bits(0x4120_0000), Scalar::zero()),
            Color::opaque_white(),
            Scalar::from_bits(0x42c8_0000),
            Scalar::from_bits(0x4248_0000),
        )
    }
}

impl GpuRecord for PointLightGpu {
    open spec fn words(&self) -> Seq<u32> {
        vec4_words(self.position) + vec4_words(self.color) + seq![
            self.intensity.bits,
            self.range.bits,
            0u32,
            0u32,
        ]
    }

    open spec fn word_count() -> nat {
        12
    }

    proof fn lemma_word_count(&self) {
    }

    fn append_words(&self, out: &mut Vec<u32>) {
        push_vec4(out, self.position);
        push_vec4(out, self.color);
        out.push(self.intensity.bits);
        out.push(self.range.bits);
        out.push(0);
        out.push(0);
        assert(out@ =~= old(out)@ + self.words());
    }
}

} // verus!
