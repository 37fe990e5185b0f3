//! The layout of the vertices in a vertex buffer.
//!
//! A [`BufferLayout`] lists the attributes of one vertex, in order; every
//! attribute starts right after the one before it, and the stride (the size of a
//! whole vertex) is the sum of their sizes.
use vstd::prelude::*;

verus! {

/// The type of a vertex attribute or a shader variable.
#[derive(Debug, Clone, Copy, PartialEq, Eq, Structural)]
pub enum ShaderDataType {
    Float,
    Vec2,
    Vec3,
    Vec4,
    Mat3,
    Mat4,
    Int,
    Int2,
    Int3,
    Int4,
    Bool,
}

/// The number of scalar components of a type.
pub open spec fn component_count(data_type: ShaderDataType) -> i32 {
    match data_type {
        ShaderDataType::Float => 1,
        ShaderDataType::Vec2 => 2,
        ShaderDataType::Vec3 => 3,
        ShaderDataType::Vec4 => 4,
        ShaderDataType::Mat3 => 9,
        ShaderDataType::Mat4 => 16,
        ShaderDataType::Int => 1,
        ShaderDataType::Int2 => 2,
        ShaderDataType::Int3 => 3,
        ShaderDataType::Int4 => 4,
        ShaderDataType::Bool => 1,
    }
}

/// The size in bytes of a type: four bytes per component, one for a `Bool`.
pub open spec fn data_type_size(data_type: ShaderDataType) -> u32 {
    match data_type {
        ShaderDataType::Bool => 1,
        _ => (4 * component_count(data_type)) as u32,
    }
}

impl ShaderDataType {
    /// The size in bytes of `data_type` (see [`data_type_size`]).
    pub fn get_size(data_type: &ShaderDataType) -> (size: u32)
        ensures
            size == data_type_size(*data_type),
    {
        match data_type {
            ShaderDataType::Float => 4,
            ShaderDataType::Vec2 => 4 * 2,
            ShaderDataType::Vec3 => 4 * 3,
            ShaderDataType::Vec4 => 4 * 4,
            ShaderDataType::Mat3 => 4 * 3 * 3,
            ShaderDataType::Mat4 => 4 * 4 * 4,
            ShaderDataType::Int => 4,
            ShaderDataType::Int2 => 4 * 2,
            ShaderDataType::Int3 => 4 * 3,
            ShaderDataType::Int4 => 4 * 4,
            ShaderDataType::Bool => 1,
        }
    }
}

/// One attribute of a vertex: its name, type, whether it is normalized, its
/// size and its offset from the start of the vertex.
pub struct BufferElement {
    name: String,
    data_type: ShaderDataType,
    normalized: bool,
    size: u32,
    offset: u32,
}

impl BufferElement {
    /// The size of an element is always the size of its type.
    #[verifier::type_invariant]
    spec fn size_matches_type(&self) -> bool {
        self.size == data_type_size(self.data_type)
    }

    pub closed spec fn spec_name(&self) -> Seq<char> {
        self.name@
    }

    pub closed spec fn spec_data_type(&self) -> ShaderDataType {
        self.data_type
    }

    pub closed spec fn spec_normalized(&self) -> bool {
        self.normalized
    }

    pub closed spec fn spec_size(&self) -> u32 {
        self.size
    }

    pub closed spec fn spec_offset(&self) -> u32 {
        self.offset
    }

    /// An element of the given type, at offset `0` until a layout places it.
    pub fn new(data_type: ShaderDataType, name: String, normalized: bool) -> (e: Self)
        ensures
            e.spec_data_type() == data_type,
            e.spec_name() == name@,
            e.spec_normalized() == normalized,
            e.spec_size() == data_type_size(data_type),
            e.spec_offset() == 0,
    {
        let size = ShaderDataType::get_size(&data_type);
        BufferElement { data_type, name, normalized, size, offset: 0 }
    }

    pub fn get_data_type(&self) -> (t: &ShaderDataType)
        ensures
            *t == self.spec_data_type(),
    {
        &self.data_type
    }

    pub fn get_size(&self) -> (s: &u32)
        ensures
            *s == self.spec_size(),
            *s == data_type_size(self.spec_data_type()),
    {
        proof {
            use_type_invariant(self);
        }
        &self.size
    }

    pub fn get_normailzed(&self) -> (n: &bool)
        ensures
            *n == self.spec_normalized(),
    {
        &self.normalized
    }

    pub fn get_offset(&self) -> (o: u32)
        ensures
            o == self.spec_offset(),
    {
        self.offset
    }

    /// The number of scalar components of this element's type.
    pub fn get_component_count(&self) -> (c: i32)
        ensures
            c == component_count(self.spec_data_type()),
    {
        match self.data_type {
            ShaderDataType::Float => 1,
            ShaderDataType::Vec2 => 2,
            ShaderDataType::Vec3 => 3,
            ShaderDataType::Vec4 => 4,
            ShaderDataType::Mat3 => 3 * 3,
            ShaderDataType::Mat4 => 4 * 4,
            ShaderDataType::Int => 1,
            ShaderDataType::Int2 => 2,
            ShaderDataType::Int3 => 3,
            ShaderDataType::Int4 => 4,
            ShaderDataType::Bool => 1,
        }
    }
}

/// The sum of the sizes of the elements.
pub open spec fn sizes_sum(elements: Seq<BufferElement>) -> int
    decreases elements.len(),
{
    if elements.len() == 0 {
        0
    } else {
        sizes_sum(elements.drop_last()) + elements.last().spec_size()
    }
}

/// The offset that a layout gives the element at `index`: the sum of the sizes
/// of the elements before it.
pub open spec fn offset_of(elements: Seq<BufferElement>, index: int) -> int {
    sizes_sum(elements.take(index))
}

/// `placed` holds the elements of `elements`, in order, each one placed at its
/// offset and otherwise unchanged.
pub open spec fn placed_at_offsets(placed: Seq<BufferElement>, elements: Seq<BufferElement>) -> bool {
    &&& placed.len() == elements.len()
    &&& forall|i: int|
        0 <= i < elements.len() ==> {
            &&& (#[trigger] placed[i]).spec_name() == elements[i].spec_name()
            &&& placed[i].spec_data_type() == elements[i].spec_data_type()
            &&& placed[i].spec_normalized() == elements[i].spec_normalized()
            &&& placed[i].spec_size() == elements[i].spec_size()
            &&& placed[i].spec_offset() == offset_of(elements, i)
        }
}

/// Adding one more element to a prefix adds its size.
pub proof fn lemma_sizes_sum_step(elements: Seq<BufferElement>, i: int)
    requires
        0 <= i < elements.len(),
    ensures
        sizes_sum(elements.take(i + 1)) == sizes_sum(elements.take(i)) + elements[i].spec_size(),
{
    assert(elements.take(i + 1).drop_last() =~= elements.take(i));
}

/// Sizes are never negative, so the sum of a prefix is at most the whole sum.
pub proof fn lemma_sizes_sum_prefix(elements: Seq<BufferElement>, i: int)
    requires
        0 <= i <= elements.len(),
    ensures
        0 <= sizes_sum(elements.take(i)) <= sizes_sum(elements),
    decreases elements.len() - i,
{
    if i == elements.len() {
        assert(elements.take(i) =~= elements);
        lemma_sizes_sum_nonneg(elements);
    } else {
        lemma_sizes_sum_step(elements, i);
        lemma_sizes_sum_prefix(elements, i + 1);
        lemma_sizes_sum_nonneg(elements.take(i));
    }
}

proof fn lemma_sizes_sum_nonneg(elements: Seq<BufferElement>)
    ensures
        sizes_sum(elements) >= 0,
    decreases elements.len(),
{
    if elements.len() > 0 {
        lemma_sizes_sum_nonneg(elements.drop_last());
    }
}

/// The layout of a vertex: its elements, each placed right after the one before
/// it, and the stride, the size of the whole vertex.
pub struct BufferLayout {
    elements: Vec<BufferElement>,
    stride: u32,
}

impl BufferLayout {
    pub closed spec fn spec_elements(&self) -> Seq<BufferElement> {
        self.elements@
    }

    pub closed spec fn spec_stride(&self) -> u32 {
        self.stride
    }

    /// Places `elements` one after the other, in order, from offset `0`; the
    /// stride is the sum of their sizes, which must fit in a `u32`.
    pub fn new(elements: Vec<BufferElement>) -> (layout: Self)
        requires
            sizes_sum(elements@) <= u32::MAX,
        ensures
            placed_at_offsets(layout.spec_elements(), elements@),
            layout.spec_stride() == sizes_sum(elements@),
    {
        let mut layout = BufferLayout { elements, stride: 0 };
        layout.calculate_offsets_and_stride();
        layout
    }

    pub fn get_elements(&self) -> (e: &Vec<BufferElement>)
        ensures
            e@ == self.spec_elements(),
    {
        &self.elements
    }

    pub fn get_stride(&self) -> (s: u32)
        ensures
            s == self.spec_stride(),
    {
        self.stride
    }

    /// Gives every element its offset and adds all sizes to the stride.
    fn calculate_offsets_and_stride(&mut self)
        requires
            old(self).spec_stride() + sizes_sum(old(self).spec_elements()) <= u32::MAX,
        ensures
            placed_at_offsets(final(self).spec_elements(), old(self).spec_elements()),
            final(self).spec_stride() == old(self).spec_stride() + sizes_sum(
                old(self).spec_elements(),
            ),
    {
        let ghost orig = self.elements@;
        let ghost stride0 = self.stride;
        let mut rest: Vec<BufferElement> = Vec::new();
        std::mem::swap(&mut rest, &mut self.elements);
        let mut placed: Vec<BufferElement> = Vec::new();
        let mut offset: u32 = 0;
        let n = rest.len();
        let mut i: usize = 0;
        while i < n
            invariant
                n == orig.len(),
                i <= n,
                rest@ == orig.skip(i as int),
                offset == offset_of(orig, i as int),
                self.stride == stride0 + offset,
                stride0 + sizes_sum(orig) <= u32::MAX,
                placed@.len() == i,
                forall|j: int|
                    0 <= j < i ==> {
                        &&& (#[trigger] placed@[j]).spec_name() == orig[j].spec_name()
                        &&& placed@[j].spec_data_type() == orig[j].spec_data_type()
                        &&& placed@[j].spec_normalized() == orig[j].spec_normalized()
                        &&& placed@[j].spec_size() == orig[j].spec_size()
                        &&& placed@[j].spec_offset() == offset_of(orig, j)
                    },
            decreases n - i,
        {
            let mut element = rest.remove(0);
            assert(element == orig[i as int]);
            proof {
                use_type_invariant(&element);
                lemma_sizes_sum_step(orig, i as int);
                lemma_sizes_sum_prefix(orig, i as int + 1);
            }
            element.offset = offset;
            offset = offset + element.size;
            self.stride = self.stride + element.size;
            placed.push(element);
            assert(rest@ =~= orig.skip(i as int + 1));
            i = i + 1;
        }
        assert(orig.take(n as int) =~= orig);
        self.elements = placed;
    }
}

/// In a layout, each element starts where the one before it ends, and the stride
/// is where the last one ends, so that every element fits within the stride.
pub proof fn lemma_layout_contiguous(elements: Seq<BufferElement>, i: int)
    requires
        0 <= i < elements.len(),
    ensures
        offset_of(elements, i + 1) == offset_of(elements, i) + elements[i].spec_size(),
        offset_of(elements, 0) == 0,
        offset_of(elements, elements.len() as int) == sizes_sum(elements),
        offset_of(elements, i) + elements[i].spec_size() <= sizes_sum(elements),
{
    lemma_sizes_sum_step(elements, i);
    lemma_sizes_sum_prefix(elements, i + 1);
    assert(elements.take(0) =~= Seq::<BufferElement>::empty());
    assert(elements.take(elements.len() as int) =~= elements);
}

/// The stride of a layout closes it: it is `0` for no elements, else where the
/// last element ends, and every element ends within it.
pub proof fn lemma_stride_closes_layout(placed: Seq<BufferElement>, elements: Seq<BufferElement>, stride: int)
    requires
        placed_at_offsets(placed, elements),
        stride == sizes_sum(elements),
    ensures
        elements.len() == 0 ==> stride == 0,
        elements.len() > 0 ==> stride == placed.last().spec_offset() + placed.last().spec_size(),
        forall|i: int|
            0 <= i < placed.len() ==> #[trigger] placed[i].spec_offset() + placed[i].spec_size()
                <= stride,
{
    assert forall|i: int| 0 <= i < placed.len() implies #[trigger] placed[i].spec_offset()
        + placed[i].spec_size() <= stride by {
        lemma_layout_contiguous(elements, i);
    }
    if elements.len() > 0 {
        lemma_layout_contiguous(elements, elements.len() - 1);
    }
}

} // verus!
