//! The emitter: renders a derived layout as the two descriptor tables that
//! native pipeline-configuration code includes.

use vstd::prelude::*;
use vstd::string::StringExecFns;

use crate::classify::{FormatId, LayoutError};
use crate::layout::{build, run, AttributeDescriptor, LayoutResult, OffsetPolicy};
use crate::types::ShaderModule;
use crate::walker::walk;

verus! {

/// The text of one decimal digit.
pub open spec fn digit_text(d: nat) -> Seq<char> {
    if d == 0 {
        "0"@
    } else if d == 1 {
        "1"@
    } else if d == 2 {
        "2"@
    } else if d == 3 {
        "3"@
    } else if d == 4 {
        "4"@
    } else if d == 5 {
        "5"@
    } else if d == 6 {
        "6"@
    } else if d == 7 {
        "7"@
    } else if d == 8 {
        "8"@
    } else {
        "9"@
    }
}

/// The decimal notation of a number, without leading zeros.
pub open spec fn decimal(n: nat) -> Seq<char>
    decreases n,
{
    if n < 10 {
        digit_text(n)
    } else {
        decimal(n / 10) + digit_text(n % 10)
    }
}

impl FormatId {
    /// The symbol that names the format in native code.
    pub open spec fn spec_symbol(self) -> Seq<char> {
        match self {
            FormatId::R32Float => "VK_FORMAT_R32_SFLOAT"@,
            FormatId::R32G32Float => "VK_FORMAT_R32G32_SFLOAT"@,
            FormatId::R32G32B32Float => "VK_FORMAT_R32G32B32_SFLOAT"@,
            FormatId::R32G32B32A32Float => "VK_FORMAT_R32G32B32A32_SFLOAT"@,
        }
    }

    /// The symbol that names the format in native code.
    pub fn symbol(self) -> (r: &'static str)
        ensures
            r@ == self.spec_symbol(),
    {
        match self {
            FormatId::R32Float => "VK_FORMAT_R32_SFLOAT",
            FormatId::R32G32Float => "VK_FORMAT_R32G32_SFLOAT",
            FormatId::R32G32B32Float => "VK_FORMAT_R32G32B32_SFLOAT",
            FormatId::R32G32B32A32Float => "VK_FORMAT_R32G32B32A32_SFLOAT",
        }
    }
}

/// The table entry of one attribute.
pub open spec fn attribute_text(a: AttributeDescriptor, binding_slot: u32) -> Seq<char> {
    "    {\n        .binding = "@ + decimal(binding_slot as nat) + ",\n        .location = "@
        + decimal(a.location as nat) + ",\n        .format = "@ + a.format.spec_symbol()
        + ",\n        .offset = "@ + decimal(a.offset as nat) + ",\n    },\n"@
}

/// The table entries of the attributes, in order.
pub open spec fn attributes_text(attributes: Seq<AttributeDescriptor>, binding_slot: u32) -> Seq<
    char,
>
    decreases attributes.len(),
{
    if attributes.len() == 0 {
        Seq::empty()
    } else {
        attributes_text(attributes.drop_last(), binding_slot) + attribute_text(
            attributes.last(),
            binding_slot,
        )
    }
}

/// The whole text: the attribute table, then the one binding description.
pub open spec fn layout_text(
    attributes: Seq<AttributeDescriptor>,
    stride: u32,
    binding_slot: u32,
) -> Seq<char> {
    "VkVertexInputAttributeDescription vk_vertex_input_attribute_descriptions [] = {\n"@
        + attributes_text(attributes, binding_slot)
        + "};\n\nVkVertexInputBindingDescription vk_vertex_input_binding_descriptions[] = {\n    {\n        .binding = "@
        + decimal(binding_slot as nat) + ",\n        .stride = "@ + decimal(stride as nat)
        + ",\n        .inputRate = VK_VERTEX_INPUT_RATE_VERTEX,\n    }\n};\n"@
}

fn push_digit(out: &mut String, d: u32)
    requires
        d < 10,
    ensures
        final(out)@ == old(out)@ + digit_text(d as nat),
{
    let text = if d == 0 {
        "0"
    } else if d == 1 {
        "1"
    } else if d == 2 {
        "2"
    } else if d == 3 {
        "3"
    } else if d == 4 {
        "4"
    } else if d == 5 {
        "5"
    } else if d == 6 {
        "6"
    } else if d == 7 {
        "7"
    } else if d == 8 {
        "8"
    } else {
        "9"
    };
    out.append(text);
}

/// Appends the decimal notation of `n`.
pub fn push_decimal(out: &mut String, n: u32)
    ensures
        final(out)@ == old(out)@ + decimal(n as nat),
    decreases n,
{
    if n >= 10 {
        push_decimal(out, n / 10);
        push_digit(out, n % 10);
        assert(final(out)@ =~= old(out)@ + decimal(n as nat));
    } else {
        push_digit(out, n);
    }
}

fn push_attribute(out: &mut String, a: AttributeDescriptor, binding_slot: u32)
    ensures
        final(out)@ == old(out)@ + attribute_text(a, binding_slot),
{
    out.append("    {\n        .binding = ");
    push_decimal(out, binding_slot);
    out.append(",\n        .location = ");
    push_decimal(out, a.location);
    out.append(",\n        .format = ");
    out.append(a.format.symbol());
    out.append(",\n        .offset = ");
    push_decimal(out, a.offset);
    out.append(",\n    },\n");
    assert(final(out)@ =~= old(out)@ + attribute_text(a, binding_slot));
}

/// Renders the layout as native source: one attribute entry per descriptor, in
/// the order given, then the binding description with the stride and a
/// per-vertex input rate.
pub fn render(layout: &LayoutResult, binding_slot: u32) -> (r: String)
    ensures
        r@ == layout_text(layout.attributes@, layout.stride, binding_slot),
{
    let mut out = String::new();
    out.append(
        "VkVertexInputAttributeDescription vk_vertex_input_attribute_descriptions [] = {\n",
    );
    let ghost header = out@;
    let mut i: usize = 0;
    while i < layout.attributes.len()
        invariant
            0 <= i <= layout.attributes@.len(),
            out@ == header + attributes_text(layout.attributes@.take(i as int), binding_slot),
        decreases layout.attributes.len() - i,
    {
        push_attribute(&mut out, layout.attributes[i], binding_slot);
        assert(layout.attributes@.take(i + 1).drop_last() == layout.attributes@.take(i as int));
        assert(out@ =~= header + attributes_text(layout.attributes@.take(i + 1), binding_slot));
        i = i + 1;
    }
    assert(layout.attributes@.take(i as int) == layout.attributes@);
    out.append(
        "};\n\nVkVertexInputBindingDescription vk_vertex_input_binding_descriptions[] = {\n    {\n        .binding = ",
    );
    push_decimal(&mut out, binding_slot);
    out.append(",\n        .stride = ");
    push_decimal(&mut out, layout.stride);
    out.append(",\n        .inputRate = VK_VERTEX_INPUT_RATE_VERTEX,\n    }\n};\n");
    assert(out@ =~= layout_text(layout.attributes@, layout.stride, binding_slot));
    out
}

/// The whole derivation: walks the module, builds the layout and renders it.
/// On failure no text is produced.
pub fn generate(module: &ShaderModule, policy: OffsetPolicy, binding_slot: u32) -> (r: Result<
    String,
    LayoutError,
>)
    requires
        module.well_formed(),
    ensures
        match run(module.interface(), policy) {
            Ok(state) => r is Ok && r->Ok_0@ == layout_text(state.0, state.1 as u32, binding_slot),
            Err(e) => r == Err::<String, LayoutError>(e),
        },
{
    let pairs = walk(module);
    match build(&pairs, policy) {
        Ok(layout) => Ok(render(&layout, binding_slot)),
        Err(e) => Err(e),
    }
}

} // verus!
