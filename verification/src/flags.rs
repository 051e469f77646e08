//! Sets of uses, pipeline stages and accesses, and their Vulkan encodings.

use crate::vulkan::{
    ExtensionBits, ACCESS_COLOR_ATTACHMENT_READ, ACCESS_COLOR_ATTACHMENT_WRITE,
    ACCESS_DEPTH_STENCIL_ATTACHMENT_READ, ACCESS_DEPTH_STENCIL_ATTACHMENT_WRITE, ACCESS_HOST_READ,
    ACCESS_INDEX_READ, ACCESS_INDIRECT_COMMAND_READ, ACCESS_SHADER_SAMPLED_READ,
    ACCESS_SHADER_STORAGE_READ, ACCESS_SHADER_STORAGE_WRITE, ACCESS_TRANSFER_READ,
    ACCESS_TRANSFER_WRITE, FEATURE_COLOR_ATTACHMENT, FEATURE_DEPTH_STENCIL_ATTACHMENT,
    FEATURE_SAMPLED_IMAGE, FEATURE_STORAGE_IMAGE, FEATURE_STORAGE_READ_WITHOUT_FORMAT,
    FEATURE_STORAGE_WRITE_WITHOUT_FORMAT, FEATURE_TRANSFER_DST, FEATURE_TRANSFER_SRC,
    STAGE_ALL_COMMANDS, STAGE_COLOR_ATTACHMENT_OUTPUT, STAGE_COMPUTE_SHADER, STAGE_COPY,
    STAGE_DRAW_INDIRECT, STAGE_EARLY_FRAGMENT_TESTS, STAGE_FRAGMENT_SHADER, STAGE_HOST,
    STAGE_INDEX_INPUT, STAGE_LATE_FRAGMENT_TESTS, STAGE_MESH_SHADER, STAGE_VERTEX_SHADER,
    USAGE_COLOR_ATTACHMENT, USAGE_DEPTH_STENCIL_ATTACHMENT, USAGE_SAMPLED, USAGE_STORAGE,
    USAGE_TRANSFER_DST, USAGE_TRANSFER_SRC,
};
use vstd::prelude::*;

verus! {

/// Every bit of `part` is set in `whole`.
pub open spec fn has_all_u32(whole: u32, part: u32) -> bool {
    whole & part == part
}

/// `a` and `b` share a bit.
pub open spec fn has_any_u32(a: u32, b: u32) -> bool {
    a & b != 0
}

/// Every bit of `part` is set in `whole`.
pub open spec fn has_all_u64(whole: u64, part: u64) -> bool {
    whole & part == part
}

/// `a` and `b` share a bit.
pub open spec fn has_any_u64(a: u64, b: u64) -> bool {
    a & b != 0
}

/// The uses that a texture is created for.
#[derive(Clone, Copy, Debug, PartialEq, Eq, Structural)]
pub struct TextureUsage(pub u32);

impl TextureUsage {
    /// No use.
    #[verifier::allow_in_spec]
    pub fn none() -> Self
        returns
            TextureUsage(0x0),
    {
        TextureUsage(0x0)
    }

    /// Sampled by shaders.
    #[verifier::allow_in_spec]
    pub fn sampled() -> Self
        returns
            TextureUsage(0x1),
    {
        TextureUsage(0x1)
    }

    /// Read and written by shaders.
    #[verifier::allow_in_spec]
    pub fn storage() -> Self
        returns
            TextureUsage(0x2),
    {
        TextureUsage(0x2)
    }

    /// Color attachment of a render pass.
    #[verifier::allow_in_spec]
    pub fn color_attachment() -> Self
        returns
            TextureUsage(0x4),
    {
        TextureUsage(0x4)
    }

    /// Depth or stencil attachment of a render pass.
    #[verifier::allow_in_spec]
    pub fn depth_stencil_attachment() -> Self
        returns
            TextureUsage(0x8),
    {
        TextureUsage(0x8)
    }

    /// Source of copies.
    #[verifier::allow_in_spec]
    pub fn transfer_source() -> Self
        returns
            TextureUsage(0x10),
    {
        TextureUsage(0x10)
    }

    /// Destination of copies.
    #[verifier::allow_in_spec]
    pub fn transfer_destination() -> Self
        returns
            TextureUsage(0x20),
    {
        TextureUsage(0x20)
    }

    /// Whether every bit of `other` is set in `self`.
    pub fn contains(self, other: Self) -> (r: bool)
        ensures
            r == has_all_u32(self.0, other.0),
    {
        self.0 & other.0 == other.0
    }

    /// Whether `self` and `other` share a bit.
    pub fn intersects(self, other: Self) -> (r: bool)
        ensures
            r == has_any_u32(self.0, other.0),
    {
        self.0 & other.0 != 0
    }
}

impl Default for TextureUsage {
    fn default() -> (r: Self)
        ensures
            r == TextureUsage::none(),
    {
        TextureUsage(0)
    }
}

impl vstd::std_specs::ops::BitOrSpecImpl for TextureUsage {
    open spec fn obeys_bitor_spec() -> bool {
        true
    }

    open spec fn bitor_req(self, rhs: Self) -> bool {
        true
    }

    open spec fn bitor_spec(self, rhs: Self) -> Self {
        TextureUsage(self.0 | rhs.0)
    }
}

impl std::ops::BitOr for TextureUsage {
    type Output = Self;

    fn bitor(self, rhs: Self) -> (r: Self) {
        TextureUsage(self.0 | rhs.0)
    }
}

impl std::ops::BitOrAssign for TextureUsage {
    fn bitor_assign(&mut self, rhs: Self)
        ensures
            *final(self) == TextureUsage(old(self).0 | rhs.0),
    {
        self.0 = self.0 | rhs.0;
    }
}

/// Pipeline stages that a barrier or a timestamp names.
#[derive(Clone, Copy, Debug, PartialEq, Eq, Structural)]
pub struct Stage(pub u64);

impl Stage {
    /// No stage.
    #[verifier::allow_in_spec]
    pub fn none() -> Self
        returns
            Stage(0x0),
    {
        Stage(0x0)
    }

    /// Copies.
    #[verifier::allow_in_spec]
    pub fn transfer() -> Self
        returns
            Stage(0x1),
    {
        Stage(0x1)
    }

    /// Vertex shading.
    #[verifier::allow_in_spec]
    pub fn vertex() -> Self
        returns
            Stage(0x2),
    {
        Stage(0x2)
    }

    /// Fragment shading.
    #[verifier::allow_in_spec]
    pub fn fragment() -> Self
        returns
            Stage(0x4),
    {
        Stage(0x4)
    }

    /// Compute shading.
    #[verifier::allow_in_spec]
    pub fn compute() -> Self
        returns
            Stage(0x8),
    {
        Stage(0x8)
    }

    /// Color attachment output.
    #[verifier::allow_in_spec]
    pub fn color_output() -> Self
        returns
            Stage(0x10),
    {
        Stage(0x10)
    }

    /// Host accesses.
    #[verifier::allow_in_spec]
    pub fn host() -> Self
        returns
            Stage(0x20),
    {
        Stage(0x20)
    }

    /// Indirect argument reads.
    #[verifier::allow_in_spec]
    pub fn indirect() -> Self
        returns
            Stage(0x40),
    {
        Stage(0x40)
    }

    /// Index reads.
    #[verifier::allow_in_spec]
    pub fn index_input() -> Self
        returns
            Stage(0x80),
    {
        Stage(0x80)
    }

    /// Early and late fragment tests.
    #[verifier::allow_in_spec]
    pub fn depth_stencil_tests() -> Self
        returns
            Stage(0x100),
    {
        Stage(0x100)
    }

    /// Mesh shading.
    #[verifier::allow_in_spec]
    pub fn mesh() -> Self
        returns
            Stage(0x200),
    {
        Stage(0x200)
    }

    /// Every command.
    #[verifier::allow_in_spec]
    pub fn all_commands() -> Self
        returns
            Stage(0x400),
    {
        Stage(0x400)
    }

    /// Whether every bit of `other` is set in `self`.
    pub fn contains(self, other: Self) -> (r: bool)
        ensures
            r == has_all_u64(self.0, other.0),
    {
        self.0 & other.0 == other.0
    }

    /// Whether `self` and `other` share a bit.
    pub fn intersects(self, other: Self) -> (r: bool)
        ensures
            r == has_any_u64(self.0, other.0),
    {
        self.0 & other.0 != 0
    }
}

impl Default for Stage {
    fn default() -> (r: Self)
        ensures
            r == Stage::none(),
    {
        Stage(0)
    }
}

impl vstd::std_specs::ops::BitOrSpecImpl for Stage {
    open spec fn obeys_bitor_spec() -> bool {
        true
    }

    open spec fn bitor_req(self, rhs: Self) -> bool {
        true
    }

    open spec fn bitor_spec(self, rhs: Self) -> Self {
        Stage(self.0 | rhs.0)
    }
}

impl std::ops::BitOr for Stage {
    type Output = Self;

    fn bitor(self, rhs: Self) -> (r: Self) {
        Stage(self.0 | rhs.0)
    }
}

impl std::ops::BitOrAssign for Stage {
    fn bitor_assign(&mut self, rhs: Self)
        ensures
            *final(self) == Stage(old(self).0 | rhs.0),
    {
        self.0 = self.0 | rhs.0;
    }
}

/// Memory accesses that a barrier names.
#[derive(Clone, Copy, Debug, PartialEq, Eq, Structural)]
pub struct Access(pub u64);

impl Access {
    /// No access.
    #[verifier::allow_in_spec]
    pub fn none() -> Self
        returns
            Access(0x0),
    {
        Access(0x0)
    }

    /// Copy reads.
    #[verifier::allow_in_spec]
    pub fn transfer_read() -> Self
        returns
            Access(0x1),
    {
        Access(0x1)
    }

    /// Copy writes.
    #[verifier::allow_in_spec]
    pub fn transfer_write() -> Self
        returns
            Access(0x2),
    {
        Access(0x2)
    }

    /// Shader reads.
    #[verifier::allow_in_spec]
    pub fn shader_read() -> Self
        returns
            Access(0x4),
    {
        Access(0x4)
    }

    /// Shader writes.
    #[verifier::allow_in_spec]
    pub fn shader_write() -> Self
        returns
            Access(0x8),
    {
        Access(0x8)
    }

    /// Color attachment reads.
    #[verifier::allow_in_spec]
    pub fn color_read() -> Self
        returns
            Access(0x10),
    {
        Access(0x10)
    }

    /// Color attachment writes.
    #[verifier::allow_in_spec]
    pub fn color_write() -> Self
        returns
            Access(0x20),
    {
        Access(0x20)
    }

    /// Depth or stencil attachment reads.
    #[verifier::allow_in_spec]
    pub fn depth_stencil_read() -> Self
        returns
            Access(0x40),
    {
        Access(0x40)
    }

    /// Depth or stencil attachment writes.
    #[verifier::allow_in_spec]
    pub fn depth_stencil_write() -> Self
        returns
            Access(0x80),
    {
        Access(0x80)
    }

    /// Indirect argument reads.
    #[verifier::allow_in_spec]
    pub fn indirect_read() -> Self
        returns
            Access(0x100),
    {
        Access(0x100)
    }

    /// Index reads.
    #[verifier::allow_in_spec]
    pub fn index_read() -> Self
        returns
            Access(0x200),
    {
        Access(0x200)
    }

    /// Host reads.
    #[verifier::allow_in_spec]
    pub fn host_read() -> Self
        returns
            Access(0x400),
    {
        Access(0x400)
    }

    /// Descriptor heap reads.
    #[verifier::allow_in_spec]
    pub fn descriptor_read() -> Self
        returns
            Access(0x800),
    {
        Access(0x800)
    }

    /// Whether every bit of `other` is set in `self`.
    pub fn contains(self, other: Self) -> (r: bool)
        ensures
            r == has_all_u64(self.0, other.0),
    {
        self.0 & other.0 == other.0
    }

    /// Whether `self` and `other` share a bit.
    pub fn intersects(self, other: Self) -> (r: bool)
        ensures
            r == has_any_u64(self.0, other.0),
    {
        self.0 & other.0 != 0
    }
}

impl Default for Access {
    fn default() -> (r: Self)
        ensures
            r == Access::none(),
    {
        Access(0)
    }
}

impl vstd::std_specs::ops::BitOrSpecImpl for Access {
    open spec fn obeys_bitor_spec() -> bool {
        true
    }

    open spec fn bitor_req(self, rhs: Self) -> bool {
        true
    }

    open spec fn bitor_spec(self, rhs: Self) -> Self {
        Access(self.0 | rhs.0)
    }
}

impl std::ops::BitOr for Access {
    type Output = Self;

    fn bitor(self, rhs: Self) -> (r: Self) {
        Access(self.0 | rhs.0)
    }
}

impl std::ops::BitOrAssign for Access {
    fn bitor_assign(&mut self, rhs: Self)
        ensures
            *final(self) == Access(old(self).0 | rhs.0),
    {
        self.0 = self.0 | rhs.0;
    }
}

/// The union of what `table` assigns to `set`: a row counts when its first component shares a bit
/// with `set`.
pub open spec fn encoded(set: u64, table: Seq<(u64, u64)>) -> u64
    decreases table.len(),
{
    if table.len() == 0 {
        0
    } else {
        let row = table.last();
        encoded(set, table.drop_last()) | (if has_any_u64(set, row.0) {
            row.1
        } else {
            0
        })
    }
}

/// As [`encoded`], for 32-bit encodings.
pub open spec fn encoded_u32(set: u32, table: Seq<(u32, u32)>) -> u32
    decreases table.len(),
{
    if table.len() == 0 {
        0
    } else {
        let row = table.last();
        encoded_u32(set, table.drop_last()) | (if has_any_u32(set, row.0) {
            row.1
        } else {
            0
        })
    }
}

fn encode(set: u64, table: &[(u64, u64)]) -> (r: u64)
    ensures
        r == encoded(set, table@),
{
    let mut result: u64 = 0;
    let mut i: usize = 0;
    while i < table.len()
        invariant
            i <= table@.len(),
            result == encoded(set, table@.take(i as int)),
        decreases table@.len() - i,
    {
        proof {
            assert(table@.take(i + 1).drop_last() =~= table@.take(i as int));
            assert(result | 0u64 == result) by (bit_vector);
        }
        let row = table[i];
        if set & row.0 != 0 {
            result = result | row.1;
        }
        i += 1;
    }
    assert(table@.take(i as int) =~= table@);
    result
}

fn encode_u32(set: u32, table: &[(u32, u32)]) -> (r: u32)
    ensures
        r == encoded_u32(set, table@),
{
    let mut result: u32 = 0;
    let mut i: usize = 0;
    while i < table.len()
        invariant
            i <= table@.len(),
            result == encoded_u32(set, table@.take(i as int)),
        decreases table@.len() - i,
    {
        proof {
            assert(table@.take(i + 1).drop_last() =~= table@.take(i as int));
            assert(result | 0u32 == result) by (bit_vector);
        }
        let row = table[i];
        if set & row.0 != 0 {
            result = result | row.1;
        }
        i += 1;
    }
    assert(table@.take(i as int) =~= table@);
    result
}

/// The Vulkan stages of each stage.
pub open spec fn stage_table() -> Seq<(u64, u64)> {
    seq![
        (Stage::indirect().0, STAGE_DRAW_INDIRECT),
        (Stage::index_input().0, STAGE_INDEX_INPUT),
        (Stage::vertex().0, STAGE_VERTEX_SHADER),
        (Stage::mesh().0, STAGE_MESH_SHADER),
        (Stage::depth_stencil_tests().0, STAGE_EARLY_FRAGMENT_TESTS | STAGE_LATE_FRAGMENT_TESTS),
        (Stage::fragment().0, STAGE_FRAGMENT_SHADER),
        (Stage::color_output().0, STAGE_COLOR_ATTACHMENT_OUTPUT),
        (Stage::compute().0, STAGE_COMPUTE_SHADER),
        (Stage::transfer().0, STAGE_COPY),
        (Stage::host().0, STAGE_HOST),
        (Stage::all_commands().0, STAGE_ALL_COMMANDS),
    ]
}

/// The Vulkan accesses of each access.
pub open spec fn access_table(bits: ExtensionBits) -> Seq<(u64, u64)> {
    seq![
        (Access::transfer_read().0, ACCESS_TRANSFER_READ),
        (Access::transfer_write().0, ACCESS_TRANSFER_WRITE),
        (Access::shader_read().0, ACCESS_SHADER_STORAGE_READ | ACCESS_SHADER_SAMPLED_READ),
        (Access::shader_write().0, ACCESS_SHADER_STORAGE_WRITE),
        (Access::color_read().0, ACCESS_COLOR_ATTACHMENT_READ),
        (Access::color_write().0, ACCESS_COLOR_ATTACHMENT_WRITE),
        (Access::depth_stencil_read().0, ACCESS_DEPTH_STENCIL_ATTACHMENT_READ),
        (Access::depth_stencil_write().0, ACCESS_DEPTH_STENCIL_ATTACHMENT_WRITE),
        (Access::indirect_read().0, ACCESS_INDIRECT_COMMAND_READ),
        (Access::index_read().0, ACCESS_INDEX_READ),
        (Access::host_read().0, ACCESS_HOST_READ),
        (Access::descriptor_read().0, bits.sampler_heap_read | bits.resource_heap_read),
    ]
}

/// The format features that each use needs.
pub open spec fn feature_table() -> Seq<(u64, u64)> {
    seq![
        (TextureUsage::sampled().0 as u64, FEATURE_SAMPLED_IMAGE),
        (TextureUsage::storage().0 as u64, FEATURE_STORAGE_IMAGE | FEATURE_STORAGE_READ_WITHOUT_FORMAT
            | FEATURE_STORAGE_WRITE_WITHOUT_FORMAT),
        (TextureUsage::color_attachment().0 as u64, FEATURE_COLOR_ATTACHMENT),
        (TextureUsage::depth_stencil_attachment().0 as u64, FEATURE_DEPTH_STENCIL_ATTACHMENT),
        (TextureUsage::transfer_source().0 as u64, FEATURE_TRANSFER_SRC),
        (TextureUsage::transfer_destination().0 as u64, FEATURE_TRANSFER_DST),
    ]
}

/// The Vulkan image usage of each use.
pub open spec fn usage_table() -> Seq<(u32, u32)> {
    seq![
        (TextureUsage::sampled().0, USAGE_SAMPLED),
        (TextureUsage::storage().0, USAGE_STORAGE),
        (TextureUsage::color_attachment().0, USAGE_COLOR_ATTACHMENT),
        (TextureUsage::depth_stencil_attachment().0, USAGE_DEPTH_STENCIL_ATTACHMENT),
        (TextureUsage::transfer_source().0, USAGE_TRANSFER_SRC),
        (TextureUsage::transfer_destination().0, USAGE_TRANSFER_DST),
    ]
}

impl Stage {
    /// The Vulkan stage mask.
    pub fn vk(self) -> (r: u64)
        ensures
            r == encoded(self.0, stage_table()),
    {
        let table: [(u64, u64); 11] = [
            (Stage::indirect().0, STAGE_DRAW_INDIRECT),
            (Stage::index_input().0, STAGE_INDEX_INPUT),
            (Stage::vertex().0, STAGE_VERTEX_SHADER),
            (Stage::mesh().0, STAGE_MESH_SHADER),
            (Stage::depth_stencil_tests().0, STAGE_EARLY_FRAGMENT_TESTS | STAGE_LATE_FRAGMENT_TESTS),
            (Stage::fragment().0, STAGE_FRAGMENT_SHADER),
            (Stage::color_output().0, STAGE_COLOR_ATTACHMENT_OUTPUT),
            (Stage::compute().0, STAGE_COMPUTE_SHADER),
            (Stage::transfer().0, STAGE_COPY),
            (Stage::host().0, STAGE_HOST),
            (Stage::all_commands().0, STAGE_ALL_COMMANDS),
        ];
        assert(table@ =~= stage_table());
        encode(self.0, &table)
    }
}

impl Access {
    /// The Vulkan access mask.
    pub fn vk(self, bits: ExtensionBits) -> (r: u64)
        ensures
            r == encoded(self.0, access_table(bits)),
    {
        let table: [(u64, u64); 12] = [
            (Access::transfer_read().0, ACCESS_TRANSFER_READ),
            (Access::transfer_write().0, ACCESS_TRANSFER_WRITE),
            (Access::shader_read().0, ACCESS_SHADER_STORAGE_READ | ACCESS_SHADER_SAMPLED_READ),
            (Access::shader_write().0, ACCESS_SHADER_STORAGE_WRITE),
            (Access::color_read().0, ACCESS_COLOR_ATTACHMENT_READ),
            (Access::color_write().0, ACCESS_COLOR_ATTACHMENT_WRITE),
            (Access::depth_stencil_read().0, ACCESS_DEPTH_STENCIL_ATTACHMENT_READ),
            (Access::depth_stencil_write().0, ACCESS_DEPTH_STENCIL_ATTACHMENT_WRITE),
            (Access::indirect_read().0, ACCESS_INDIRECT_COMMAND_READ),
            (Access::index_read().0, ACCESS_INDEX_READ),
            (Access::host_read().0, ACCESS_HOST_READ),
            (Access::descriptor_read().0, bits.sampler_heap_read | bits.resource_heap_read),
        ];
        assert(table@ =~= access_table(bits));
        encode(self.0, &table)
    }
}

/// The format features that a texture with `usage` needs.
pub fn required_format_features(usage: TextureUsage) -> (r: u64)
    ensures
        r == encoded(usage.0 as u64, feature_table()),
{
    let table: [(u64, u64); 6] = [
        (TextureUsage::sampled().0 as u64, FEATURE_SAMPLED_IMAGE),
        (TextureUsage::storage().0 as u64, FEATURE_STORAGE_IMAGE | FEATURE_STORAGE_READ_WITHOUT_FORMAT
            | FEATURE_STORAGE_WRITE_WITHOUT_FORMAT),
        (TextureUsage::color_attachment().0 as u64, FEATURE_COLOR_ATTACHMENT),
        (TextureUsage::depth_stencil_attachment().0 as u64, FEATURE_DEPTH_STENCIL_ATTACHMENT),
        (TextureUsage::transfer_source().0 as u64, FEATURE_TRANSFER_SRC),
        (TextureUsage::transfer_destination().0 as u64, FEATURE_TRANSFER_DST),
    ];
    assert(table@ =~= feature_table());
    encode(usage.0 as u64, &table)
}

/// The Vulkan image usage of a texture with `usage`.
pub fn image_usage(usage: TextureUsage) -> (r: u32)
    ensures
        r == encoded_u32(usage.0, usage_table()),
{
    let table: [(u32, u32); 6] = [
        (TextureUsage::sampled().0, USAGE_SAMPLED),
        (TextureUsage::storage().0, USAGE_STORAGE),
        (TextureUsage::color_attachment().0, USAGE_COLOR_ATTACHMENT),
        (TextureUsage::depth_stencil_attachment().0, USAGE_DEPTH_STENCIL_ATTACHMENT),
        (TextureUsage::transfer_source().0, USAGE_TRANSFER_SRC),
        (TextureUsage::transfer_destination().0, USAGE_TRANSFER_DST),
    ];
    assert(table@ =~= usage_table());
    encode_u32(usage.0, &table)
}

/// An encoding turns unions into unions: what two sets need together is what each needs.
pub proof fn encoded_of_union(a: u64, b: u64, table: Seq<(u64, u64)>)
    ensures
        encoded(a | b, table) == encoded(a, table) | encoded(b, table),
    decreases table.len(),
{
    if table.len() == 0 {
        assert(0u64 | 0u64 == 0u64) by (bit_vector);
    } else {
        let rest = table.drop_last();
        encoded_of_union(a, b, rest);
        let row = table.last();
        let (x, y, m, v) = (encoded(a, rest), encoded(b, rest), row.0, row.1);
        assert(((a | b) & m != 0) == (a & m != 0 || b & m != 0)) by (bit_vector);
        assert((x | y) | v == (x | v) | (y | v)) by (bit_vector);
        assert((x | y) | v == (x | v) | (y | 0)) by (bit_vector);
        assert((x | y) | v == (x | 0) | (y | v)) by (bit_vector);
        assert((x | y) | 0 == (x | 0) | (y | 0)) by (bit_vector);
    }
}

/// Where no row of the table shares a bit with the set, nothing is encoded.
proof fn encoded_of_none(set: u64, table: Seq<(u64, u64)>)
    requires
        forall|i: int| 0 <= i < table.len() ==> !has_any_u64(set, (#[trigger] table[i]).0),
    ensures
        encoded(set, table) == 0,
    decreases table.len(),
{
    if table.len() > 0 {
        encoded_of_none(set, table.drop_last());
        assert(!has_any_u64(set, table[table.len() - 1].0));
        assert(0u64 | 0u64 == 0u64) by (bit_vector);
    }
}

/// A set that shares bits with one row alone is encoded as that row says.
pub proof fn encoded_of_one(set: u64, table: Seq<(u64, u64)>, place: int)
    requires
        0 <= place < table.len(),
        has_any_u64(set, table[place].0),
        forall|i: int|
            0 <= i < table.len() && i != place ==> !has_any_u64(set, (#[trigger] table[i]).0),
    ensures
        encoded(set, table) == table[place].1,
    decreases table.len(),
{
    let rest = table.drop_last();
    let value = table[place].1;
    assert(0u64 | value == value && value | 0u64 == value) by (bit_vector);
    if place == table.len() - 1 {
        encoded_of_none(set, rest);
    } else {
        encoded_of_one(set, rest, place);
        assert(!has_any_u64(set, table[table.len() - 1].0));
    }
}

/// An encoding holds what each row says whose bits the set shares.
pub proof fn encoded_holds_rows(set: u64, table: Seq<(u64, u64)>, place: int)
    requires
        0 <= place < table.len(),
        has_any_u64(set, table[place].0),
    ensures
        has_all_u64(encoded(set, table), table[place].1),
    decreases table.len(),
{
    let rest = table.drop_last();
    let (x, y, v) = (encoded(set, rest), table.last().1, table[place].1);
    assert((x | v) & v == v && (x & v == v ==> (x | y) & v == v && (x | 0) & v == v))
        by (bit_vector);
    if place < table.len() - 1 {
        encoded_holds_rows(set, rest, place);
    }
}

/// Each single use of a texture needs the feature of a format that is named after it.
pub proof fn single_uses_need_their_features()
    ensures
        encoded(0x1, feature_table()) == FEATURE_SAMPLED_IMAGE,
        encoded(0x2, feature_table()) == FEATURE_STORAGE_IMAGE
            | FEATURE_STORAGE_READ_WITHOUT_FORMAT | FEATURE_STORAGE_WRITE_WITHOUT_FORMAT,
        encoded(0x4, feature_table()) == FEATURE_COLOR_ATTACHMENT,
        encoded(0x8, feature_table()) == FEATURE_DEPTH_STENCIL_ATTACHMENT,
        encoded(0x10, feature_table()) == FEATURE_TRANSFER_SRC,
        encoded(0x20, feature_table()) == FEATURE_TRANSFER_DST,
{
    let table = feature_table();
    assert({
        &&& 1u64 & 1 != 0 && 1u64 & 2 == 0 && 1u64 & 4 == 0 && 1u64 & 8 == 0 && 1u64 & 16 == 0
            && 1u64 & 32 == 0
        &&& 2u64 & 1 == 0 && 2u64 & 2 != 0 && 2u64 & 4 == 0 && 2u64 & 8 == 0 && 2u64 & 16 == 0
            && 2u64 & 32 == 0
        &&& 4u64 & 1 == 0 && 4u64 & 2 == 0 && 4u64 & 4 != 0 && 4u64 & 8 == 0 && 4u64 & 16 == 0
            && 4u64 & 32 == 0
        &&& 8u64 & 1 == 0 && 8u64 & 2 == 0 && 8u64 & 4 == 0 && 8u64 & 8 != 0 && 8u64 & 16 == 0
            && 8u64 & 32 == 0
        &&& 16u64 & 1 == 0 && 16u64 & 2 == 0 && 16u64 & 4 == 0 && 16u64 & 8 == 0 && 16u64 & 16 != 0
            && 16u64 & 32 == 0
        &&& 32u64 & 1 == 0 && 32u64 & 2 == 0 && 32u64 & 4 == 0 && 32u64 & 8 == 0 && 32u64 & 16 == 0
            && 32u64 & 32 != 0
    }) by (bit_vector);
    encoded_of_one(0x1, table, 0);
    encoded_of_one(0x2, table, 1);
    encoded_of_one(0x4, table, 2);
    encoded_of_one(0x8, table, 3);
    encoded_of_one(0x10, table, 4);
    encoded_of_one(0x20, table, 5);
}

} // verus!
