//! The layout builder: accumulates byte offsets over the walked interface and
//! emits one attribute descriptor for each location-bound argument.

use vstd::prelude::*;

use crate::classify::{byte_size, classify, format_of, size_of, FormatId, LayoutError};
use crate::types::{Argument, Binding, TypeDescriptor};

verus! {

/// Whether arguments that are not read from the vertex buffer (built-ins and
/// unbound arguments) still take up room in the vertex record.
#[derive(Clone, Copy, Debug, PartialEq, Eq, Structural)]
pub enum OffsetPolicy {
    /// Every argument advances the offset by its size.
    BuiltinsConsumeOffset,
    /// Only location-bound arguments advance the offset.
    BuiltinsSkipOffset,
}

/// One vertex attribute: the shader location it feeds, its format, and its
/// byte offset within the vertex record.
#[derive(Clone, Copy, Debug, PartialEq, Eq, Structural)]
pub struct AttributeDescriptor {
    pub location: u32,
    pub format: FormatId,
    pub offset: u32,
}

/// The derived layout: the attributes in declaration order, and the size of
/// one vertex record.
#[derive(Clone, Debug)]
pub struct LayoutResult {
    pub attributes: Vec<AttributeDescriptor>,
    pub stride: u32,
}

/// Whether an argument with this binding advances the offset.
pub open spec fn advances(b: Binding, policy: OffsetPolicy) -> bool {
    b is Location || policy == OffsetPolicy::BuiltinsConsumeOffset
}

/// The builder's state after one more argument: the attributes so far and the
/// running offset, or the error that ends the run.
pub open spec fn step(
    state: (Seq<AttributeDescriptor>, nat),
    pair: (Argument, TypeDescriptor),
    policy: OffsetPolicy,
) -> Result<(Seq<AttributeDescriptor>, nat), LayoutError> {
    let (arg, ty) = pair;
    if advances(arg.binding, policy) && size_of(ty) is None {
        Err(LayoutError::UnsupportedType(ty))
    } else if arg.binding is Location && format_of(ty) is None {
        Err(LayoutError::UnsupportedType(ty))
    } else {
        let next = if advances(arg.binding, policy) {
            state.1 + size_of(ty)->Some_0
        } else {
            state.1
        };
        if next > u32::MAX {
            Err(LayoutError::OffsetOverflow)
        } else if arg.binding is Location {
            let attribute = AttributeDescriptor {
                location: arg.binding->Location_index,
                format: format_of(ty)->Some_0,
                offset: state.1 as u32,
            };
            Ok((state.0.push(attribute), next))
        } else {
            Ok((state.0, next))
        }
    }
}

/// The builder's state after the whole sequence, starting from no attributes
/// at offset zero; the first error ends the run.
pub open spec fn run(pairs: Seq<(Argument, TypeDescriptor)>, policy: OffsetPolicy) -> Result<
    (Seq<AttributeDescriptor>, nat),
    LayoutError,
>
    decreases pairs.len(),
{
    if pairs.len() == 0 {
        Ok((Seq::empty(), 0))
    } else {
        match run(pairs.drop_last(), policy) {
            Ok(state) => step(state, pairs.last(), policy),
            Err(e) => Err(e),
        }
    }
}

/// Once a prefix of the sequence fails, the whole sequence fails with the same
/// error.
proof fn lemma_run_err_extends(
    pairs: Seq<(Argument, TypeDescriptor)>,
    policy: OffsetPolicy,
    i: int,
)
    requires
        0 <= i <= pairs.len(),
        run(pairs.take(i), policy) is Err,
    ensures
        run(pairs, policy) == run(pairs.take(i), policy),
    decreases pairs.len() - i,
{
    if i < pairs.len() {
        assert(pairs.take(i + 1).drop_last() == pairs.take(i));
        lemma_run_err_extends(pairs, policy, i + 1);
    } else {
        assert(pairs.take(i) == pairs);
    }
}

/// Accumulates attributes and the running offset one argument at a time.
pub struct LayoutBuilder {
    policy: OffsetPolicy,
    offset: u32,
    attributes: Vec<AttributeDescriptor>,
}

impl View for LayoutBuilder {
    type V = (Seq<AttributeDescriptor>, nat);

    closed spec fn view(&self) -> (Seq<AttributeDescriptor>, nat) {
        (self.attributes@, self.offset as nat)
    }
}

impl LayoutBuilder {
    pub closed spec fn spec_policy(&self) -> OffsetPolicy {
        self.policy
    }

    /// A builder with no attributes, at offset zero.
    pub fn new(policy: OffsetPolicy) -> (r: LayoutBuilder)
        ensures
            r@ == (Seq::<AttributeDescriptor>::empty(), 0nat),
            r.spec_policy() == policy,
    {
        LayoutBuilder { policy, offset: 0, attributes: Vec::new() }
    }

    /// The policy the builder was made with.
    pub fn policy(&self) -> (r: OffsetPolicy)
        ensures
            r == self.spec_policy(),
    {
        self.policy
    }

    /// The running offset: the bytes taken by the arguments so far.
    pub fn offset(&self) -> (r: u32)
        ensures
            r == self@.1,
    {
        self.offset
    }

    /// The attributes emitted so far.
    pub fn attributes(&self) -> (r: &Vec<AttributeDescriptor>)
        ensures
            r@ == self@.0,
    {
        &self.attributes
    }

    /// Takes in the next argument with its type. On failure the builder is left
    /// exactly as it was: no attribute is appended and the offset is unchanged.
    pub fn push(&mut self, arg: Argument, ty: TypeDescriptor) -> (r: Result<(), LayoutError>)
        ensures
            final(self).spec_policy() == old(self).spec_policy(),
            match step(old(self)@, (arg, ty), old(self).spec_policy()) {
                Ok(state) => r is Ok && final(self)@ == state,
                Err(e) => r == Err::<(), LayoutError>(e) && *final(self) == *old(self),
            },
    {
        let advance = match arg.binding {
            Binding::Location { .. } => true,
            _ => match self.policy {
                OffsetPolicy::BuiltinsConsumeOffset => true,
                OffsetPolicy::BuiltinsSkipOffset => false,
            },
        };
        let size: u32 = if advance {
            match byte_size(ty) {
                Ok(n) => n,
                Err(e) => {
                    return Err(e);
                },
            }
        } else {
            0
        };
        let emitted: Option<(u32, FormatId)> = match arg.binding {
            Binding::Location { index, .. } => match classify(ty) {
                Ok(format) => Some((index, format)),
                Err(e) => {
                    return Err(e);
                },
            },
            _ => None,
        };
        if size > u32::MAX - self.offset {
            return Err(LayoutError::OffsetOverflow);
        }
        match emitted {
            Some((location, format)) => {
                self.attributes.push(AttributeDescriptor { location, format, offset: self.offset });
            },
            None => {},
        }
        self.offset = self.offset + size;
        Ok(())
    }

    /// The finished layout; its stride is the running offset.
    pub fn finish(self) -> (r: LayoutResult)
        ensures
            r.attributes@ == self@.0,
            r.stride == self@.1,
    {
        LayoutResult { attributes: self.attributes, stride: self.offset }
    }
}

/// Derives the layout of a walked interface. Fails with the first argument
/// whose type the tables do not cover, or where the offset leaves 32 bits; no
/// partial layout is returned.
pub fn build(pairs: &Vec<(Argument, TypeDescriptor)>, policy: OffsetPolicy) -> (r: Result<
    LayoutResult,
    LayoutError,
>)
    ensures
        match run(pairs@, policy) {
            Ok(state) => r is Ok && r->Ok_0.attributes@ == state.0 && r->Ok_0.stride == state.1,
            Err(e) => r == Err::<LayoutResult, LayoutError>(e),
        },
{
    let mut builder = LayoutBuilder::new(policy);
    let mut i: usize = 0;
    while i < pairs.len()
        invariant
            0 <= i <= pairs@.len(),
            builder.spec_policy() == policy,
            run(pairs@.take(i as int), policy) == Ok::<_, LayoutError>(builder@),
        decreases pairs.len() - i,
    {
        let (arg, ty) = pairs[i];
        assert(pairs@.take(i + 1).drop_last() == pairs@.take(i as int));
        assert(pairs@.take(i + 1).last() == (arg, ty));
        match builder.push(arg, ty) {
            Ok(()) => {},
            Err(e) => {
                proof {
                    lemma_run_err_extends(pairs@, policy, i + 1);
                }
                return Err(e);
            },
        }
        i = i + 1;
    }
    assert(pairs@.take(i as int) == pairs@);
    Ok(builder.finish())
}

/// The bytes that an argument takes up in the vertex record under the policy.
pub open spec fn advance_of(pair: (Argument, TypeDescriptor), policy: OffsetPolicy) -> nat {
    if advances(pair.0.binding, policy) {
        match size_of(pair.1) {
            Some(n) => n,
            None => 0,
        }
    } else {
        0
    }
}

/// The offset reached after the given arguments: the sum of what each takes up.
pub open spec fn extent(pairs: Seq<(Argument, TypeDescriptor)>, policy: OffsetPolicy) -> nat
    decreases pairs.len(),
{
    if pairs.len() == 0 {
        0
    } else {
        extent(pairs.drop_last(), policy) + advance_of(pairs.last(), policy)
    }
}

/// The tables cover the argument wherever the builder consults them: its size
/// where it advances the offset, its format where it is location-bound.
pub open spec fn covered(pair: (Argument, TypeDescriptor), policy: OffsetPolicy) -> bool {
    &&& advances(pair.0.binding, policy) ==> size_of(pair.1) is Some
    &&& pair.0.binding is Location ==> format_of(pair.1) is Some
}

/// The positions of the location-bound arguments, in increasing order.
pub open spec fn location_positions(pairs: Seq<(Argument, TypeDescriptor)>) -> Seq<int>
    decreases pairs.len(),
{
    if pairs.len() == 0 {
        Seq::empty()
    } else if pairs.last().0.binding is Location {
        location_positions(pairs.drop_last()).push(pairs.len() - 1)
    } else {
        location_positions(pairs.drop_last())
    }
}

/// The attribute that the location-bound argument at position `j` stands for:
/// its location, the format of its type, and the offset reached before it.
pub open spec fn attribute_at(
    pairs: Seq<(Argument, TypeDescriptor)>,
    policy: OffsetPolicy,
    j: int,
) -> AttributeDescriptor {
    AttributeDescriptor {
        location: pairs[j].0.binding->Location_index,
        format: format_of(pairs[j].1)->Some_0,
        offset: extent(pairs.take(j), policy) as u32,
    }
}

/// The positions of location-bound arguments are increasing positions of the
/// sequence, and exactly the location-bound ones.
pub proof fn lemma_location_positions(pairs: Seq<(Argument, TypeDescriptor)>)
    ensures
        forall|k: int|
            0 <= k < location_positions(pairs).len() ==> {
                let j = #[trigger] location_positions(pairs)[k];
                0 <= j < pairs.len() && pairs[j].0.binding is Location
            },
        forall|k1: int, k2: int|
            0 <= k1 < k2 < location_positions(pairs).len() ==> location_positions(pairs)[k1]
                < location_positions(pairs)[k2],
        forall|j: int|
            0 <= j < pairs.len() && (#[trigger] pairs[j]).0.binding is Location ==> exists|k: int|
                0 <= k < location_positions(pairs).len() && location_positions(pairs)[k] == j,
    decreases pairs.len(),
{
    if pairs.len() > 0 {
        let rest = pairs.drop_last();
        lemma_location_positions(rest);
        assert forall|j: int|
            0 <= j < pairs.len() && (#[trigger] pairs[j]).0.binding is Location implies exists|
                k: int,
            |
                0 <= k < location_positions(pairs).len() && location_positions(pairs)[k] == j by {
            if j < pairs.len() - 1 {
                assert(rest[j] == pairs[j]);
                let k = choose|k: int|
                    0 <= k < location_positions(rest).len() && location_positions(rest)[k] == j;
                assert(location_positions(pairs)[k] == j);
            } else {
                let k = location_positions(rest).len() as int;
                assert(location_positions(pairs)[k] == j);
            }
        }
    }
}

/// The offset never shrinks as arguments are added.
pub proof fn lemma_extent_monotone(
    pairs: Seq<(Argument, TypeDescriptor)>,
    policy: OffsetPolicy,
    i: int,
)
    requires
        0 <= i <= pairs.len(),
    ensures
        extent(pairs.take(i), policy) <= extent(pairs, policy),
    decreases pairs.len() - i,
{
    if i < pairs.len() {
        assert(pairs.take(i + 1).drop_last() == pairs.take(i));
        lemma_extent_monotone(pairs, policy, i + 1);
    } else {
        assert(pairs.take(i) == pairs);
    }
}

/// What the builder yields, stated without the fold: it succeeds exactly when
/// the tables cover every argument and the offset stays within 32 bits; then
/// the stride is the offset reached after the last argument, and the
/// attributes are those of the location-bound arguments, in their order, each
/// at the offset reached before it.
pub proof fn lemma_layout_closed_form(pairs: Seq<(Argument, TypeDescriptor)>, policy: OffsetPolicy)
    ensures
        run(pairs, policy) is Ok <==> (forall|j: int|
            0 <= j < pairs.len() ==> #[trigger] covered(pairs[j], policy)) && extent(pairs, policy)
            <= u32::MAX,
        run(pairs, policy) is Ok ==> {
            let (attributes, stride) = run(pairs, policy)->Ok_0;
            &&& stride == extent(pairs, policy)
            &&& attributes.len() == location_positions(pairs).len()
            &&& forall|k: int|
                0 <= k < attributes.len() ==> #[trigger] attributes[k] == attribute_at(
                    pairs,
                    policy,
                    location_positions(pairs)[k],
                )
        },
    decreases pairs.len(),
{
    if pairs.len() > 0 {
        let rest = pairs.drop_last();
        let last = pairs.last();
        let n = pairs.len() - 1;
        lemma_layout_closed_form(rest, policy);
        lemma_location_positions(rest);
        assert forall|j: int| 0 <= j < rest.len() implies rest[j] == pairs[j] by {}
        if (forall|j: int| 0 <= j < pairs.len() ==> #[trigger] covered(pairs[j], policy)) {
            assert forall|j: int| 0 <= j < rest.len() implies #[trigger] covered(
                rest[j],
                policy,
            ) by {
                assert(covered(pairs[j], policy));
            }
            assert(covered(pairs[n], policy));
        }
        match run(rest, policy) {
            Ok(state) => {
                if run(pairs, policy) is Ok {
                    let attributes = run(pairs, policy)->Ok_0.0;
                    assert(pairs.take(n) == rest);
                    assert forall|k: int| 0 <= k < attributes.len() implies #[trigger] attributes[k]
                        == attribute_at(pairs, policy, location_positions(pairs)[k]) by {
                        if k < state.0.len() {
                            let j = location_positions(rest)[k];
                            assert(location_positions(pairs)[k] == j);
                            assert(state.0[k] == attribute_at(rest, policy, j));
                            assert(rest.take(j) == pairs.take(j));
                            assert(rest[j] == pairs[j]);
                        }
                    }
                }
            },
            Err(_) => {},
        }
    }
}

/// With only location-bound 32-bit float scalars and vectors, and a record
/// that fits in 32 bits, there is one attribute per argument, in argument
/// order.
pub proof fn lemma_all_locations_emitted(
    pairs: Seq<(Argument, TypeDescriptor)>,
    policy: OffsetPolicy,
)
    requires
        forall|j: int|
            0 <= j < pairs.len() ==> (#[trigger] pairs[j]).0.binding is Location && format_of(
                pairs[j].1,
            ) is Some,
        extent(pairs, policy) <= u32::MAX,
    ensures
        run(pairs, policy) is Ok,
        run(pairs, policy)->Ok_0.0.len() == pairs.len(),
        forall|j: int|
            0 <= j < pairs.len() ==> (#[trigger] run(pairs, policy)->Ok_0.0[j]).location
                == pairs[j].0.binding->Location_index,
{
    lemma_positions_of_all_locations(pairs);
    assert forall|j: int| 0 <= j < pairs.len() implies #[trigger] covered(pairs[j], policy) by {
        assert(pairs[j].0.binding is Location);
        assert(format_of(pairs[j].1) is Some);
    }
    lemma_layout_closed_form(pairs, policy);
    let attributes = run(pairs, policy)->Ok_0.0;
    assert forall|j: int| 0 <= j < pairs.len() implies (#[trigger] attributes[j]).location
        == pairs[j].0.binding->Location_index by {
        assert(attributes[j] == attribute_at(pairs, policy, location_positions(pairs)[j]));
    }
}

proof fn lemma_positions_of_all_locations(pairs: Seq<(Argument, TypeDescriptor)>)
    requires
        forall|j: int| 0 <= j < pairs.len() ==> (#[trigger] pairs[j]).0.binding is Location,
    ensures
        location_positions(pairs).len() == pairs.len(),
        forall|j: int| 0 <= j < pairs.len() ==> #[trigger] location_positions(pairs)[j] == j,
    decreases pairs.len(),
{
    if pairs.len() > 0 {
        let rest = pairs.drop_last();
        assert forall|j: int| 0 <= j < rest.len() implies (#[trigger] rest[j]).0.binding is Location by {
            assert(rest[j] == pairs[j]);
        }
        lemma_positions_of_all_locations(rest);
        assert(pairs[pairs.len() - 1].0.binding is Location);
    }
}

/// Walking the arguments in order, the offset after argument `i` is the offset
/// before it plus its byte size where it advances the offset: always under
/// `BuiltinsConsumeOffset`, only for location-bound arguments under
/// `BuiltinsSkipOffset`. Each attribute sits at the offset reached before its
/// argument.
pub proof fn lemma_offsets_accumulate(
    pairs: Seq<(Argument, TypeDescriptor)>,
    policy: OffsetPolicy,
    i: int,
)
    requires
        run(pairs, policy) is Ok,
        0 <= i < pairs.len(),
    ensures
        advances(pairs[i].0.binding, policy) ==> extent(pairs.take(i + 1), policy) == extent(
            pairs.take(i),
            policy,
        ) + size_of(pairs[i].1)->Some_0,
        !advances(pairs[i].0.binding, policy) ==> extent(pairs.take(i + 1), policy) == extent(
            pairs.take(i),
            policy,
        ),
        pairs[i].0.binding is Location ==> exists|k: int|
            0 <= k < run(pairs, policy)->Ok_0.0.len() && (#[trigger] run(pairs, policy)->Ok_0.0[k])
                == attribute_at(pairs, policy, i) && attribute_at(pairs, policy, i).offset
                == extent(pairs.take(i), policy),
{
    lemma_layout_closed_form(pairs, policy);
    lemma_location_positions(pairs);
    lemma_extent_monotone(pairs, policy, i);
    assert(covered(pairs[i], policy));
    assert(pairs.take(i + 1).drop_last() == pairs.take(i));
    assert(pairs.take(i + 1).last() == pairs[i]);
    if pairs[i].0.binding is Location {
        let k = choose|k: int|
            0 <= k < location_positions(pairs).len() && location_positions(pairs)[k] == i;
        assert(run(pairs, policy)->Ok_0.0[k] == attribute_at(pairs, policy, i));
    }
}

/// The stride is the offset reached after the last argument.
pub proof fn lemma_stride_is_final_offset(
    pairs: Seq<(Argument, TypeDescriptor)>,
    policy: OffsetPolicy,
)
    requires
        run(pairs, policy) is Ok,
    ensures
        run(pairs, policy)->Ok_0.1 == extent(pairs, policy),
{
    lemma_layout_closed_form(pairs, policy);
}

/// A location-bound argument whose type has no format makes the whole run
/// fail, so that no attribute at all comes out; where the record fits in 32
/// bits, the failure is `UnsupportedType`.
pub proof fn lemma_unsupported_location_fails(
    pairs: Seq<(Argument, TypeDescriptor)>,
    policy: OffsetPolicy,
    j: int,
)
    requires
        0 <= j < pairs.len(),
        pairs[j].0.binding is Location,
        format_of(pairs[j].1) is None,
    ensures
        run(pairs, policy) is Err,
        extent(pairs, policy) <= u32::MAX ==> run(pairs, policy)->Err_0 is UnsupportedType,
{
    lemma_layout_closed_form(pairs, policy);
    assert(!covered(pairs[j], policy));
    lemma_overflow_exceeds(pairs, policy);
}

proof fn lemma_overflow_exceeds(pairs: Seq<(Argument, TypeDescriptor)>, policy: OffsetPolicy)
    ensures
        run(pairs, policy) == Err::<(Seq<AttributeDescriptor>, nat), LayoutError>(
            LayoutError::OffsetOverflow,
        ) ==> extent(pairs, policy) > u32::MAX,
    decreases pairs.len(),
{
    if pairs.len() > 0 {
        let rest = pairs.drop_last();
        lemma_overflow_exceeds(rest, policy);
        lemma_layout_closed_form(rest, policy);
    }
}

} // verus!
