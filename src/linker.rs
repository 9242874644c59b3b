//! The directives of the linker script, each appended to a `String`.
use vstd::prelude::*;

use crate::device::{memory_name, Memory, MemoryType};
use crate::text::{hex, hex_padded, push_hex, push_hex8};

verus! {

/// The memory table line of one region.
pub open spec fn memory_line(m: Memory) -> Seq<char> {
    memory_name(m.mem_type) + " : ORIGIN = 0x"@ + hex_padded(m.base as nat, 8) + ", LENGTH = 0x"@
        + hex_padded(m.size as nat, 8) + "\n"@
}

/// The memory table lines of `ms`, in order.
pub open spec fn memory_lines(ms: Seq<Memory>) -> Seq<char>
    decreases ms.len(),
{
    if ms.len() == 0 {
        seq![]
    } else {
        memory_lines(ms.drop_last()) + memory_line(ms.last())
    }
}

/// The `MEMORY` block listing `ms`.
pub open spec fn memory_table(ms: Seq<Memory>) -> Seq<char> {
    "MEMORY\n{\n"@ + memory_lines(ms) + "}\n"@
}

/// The directive that binds `REGION_<name>` to `memory`.
pub open spec fn alias_line(name: Seq<char>, memory: MemoryType) -> Seq<char> {
    "REGION_ALIAS(\"REGION_"@ + name + "\", "@ + memory_name(memory) + ");\n"@
}

/// One word of a data section.
pub open spec fn long_item(w: u32) -> Seq<char> {
    "LONG(0x"@ + hex_padded(w as nat, 8) + ");"@
}

/// The words of a data section, separated by single spaces.
pub open spec fn long_list(ws: Seq<u32>) -> Seq<char>
    decreases ws.len(),
{
    if ws.len() == 0 {
        seq![]
    } else if ws.len() == 1 {
        long_item(ws[0])
    } else {
        long_list(ws.drop_last()) + " "@ + long_item(ws.last())
    }
}

/// A `SECTIONS` block holding the output section `section` at `address`,
/// which skips `offset` bytes and then holds `words`, in region `region`.
pub open spec fn bytes_section(
    section: Seq<char>,
    address: Seq<char>,
    offset: u32,
    words: Seq<u32>,
    region: Seq<char>,
) -> Seq<char> {
    "SECTIONS\n{\n"@ + section + " "@ + address + ":\n{\n. += 0x"@ + hex(offset as nat) + ";\n"@
        + long_list(words) + "\n} > "@ + region + "\n}\n"@
}

/// Appends the memory table that lists `memories`.
pub fn write_memory(out: &mut String, memories: &Vec<Memory>)
    ensures
        final(out)@ == old(out)@ + memory_table(memories@),
{
    out.append("MEMORY\n{\n");
    let mut i: usize = 0;
    while i < memories.len()
        invariant
            i <= memories.len(),
            out@ == old(out)@ + "MEMORY\n{\n"@ + memory_lines(memories@.take(i as int)),
        decreases memories.len() - i,
    {
        let m = memories[i];
        let ghost before = out@;
        out.append(m.mem_type.as_str());
        out.append(" : ORIGIN = 0x");
        push_hex8(out, m.base);
        out.append(", LENGTH = 0x");
        push_hex8(out, m.size);
        out.append("\n");
        assert(memories@.take(i + 1).drop_last() =~= memories@.take(i as int));
        assert(out@ =~= before + memory_line(m));
        i = i + 1;
    }
    assert(memories@.take(i as int) =~= memories@);
    out.append("}\n");
    assert(out@ =~= old(out)@ + memory_table(memories@));
}

/// Appends the directive that binds `REGION_<name>` to `memory`.
pub fn region_alias(out: &mut String, memory: MemoryType, name: &str)
    ensures
        final(out)@ == old(out)@ + alias_line(name@, memory),
{
    out.append("REGION_ALIAS(\"REGION_");
    out.append(name);
    out.append("\", ");
    out.append(memory.as_str());
    out.append(");\n");
    assert(out@ =~= old(out)@ + alias_line(name@, memory));
}

/// Appends the boot header template, unchanged.
pub fn output_boot_header(out: &mut String, header: &str)
    ensures
        final(out)@ == old(out)@ + header@,
{
    out.append(header);
}

/// Appends a `SECTIONS` block that places `words` at `offset` bytes into
/// output section `section`, located at `address` in region `region_name`.
pub fn output_bytes(
    out: &mut String,
    section: &str,
    address: &str,
    offset: u32,
    words: &[u32],
    region_name: &str,
)
    ensures
        final(out)@ == old(out)@ + bytes_section(section@, address@, offset, words@, region_name@),
{
    out.append("SECTIONS\n{\n");
    out.append(section);
    out.append(" ");
    out.append(address);
    out.append(":\n{\n. += 0x");
    push_hex(out, offset);
    out.append(";\n");
    let ghost head = out@;
    let mut i: usize = 0;
    while i < words.len()
        invariant
            i <= words.len(),
            out@ == head + long_list(words@.take(i as int)),
        decreases words.len() - i,
    {
        let ghost before = out@;
        if i > 0 {
            out.append(" ");
        }
        out.append("LONG(0x");
        push_hex8(out, words[i]);
        out.append(");");
        assert(words@.take(i + 1).drop_last() =~= words@.take(i as int));
        assert(out@ =~= head + long_list(words@.take(i + 1)));
        i = i + 1;
    }
    assert(words@.take(i as int) =~= words@);
    out.append("\n} > ");
    out.append(region_name);
    out.append("\n}\n");
    assert(out@ =~= old(out)@ + bytes_section(section@, address@, offset, words@, region_name@));
}

} // verus!
