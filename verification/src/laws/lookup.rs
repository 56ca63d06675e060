//! Symbol lookup.
use vstd::prelude::*;

use crate::symbols::{
    elf_symbol_address, elf_symbol_table, find_symbol_address, is_first_address,
    law_first_address_is_unique, named_at, rtt_symbol_address, table_view, ElfSymbol,
};

verus! {

/// Symbol `i` of `symbols` has exactly the name `name`.
pub open spec fn called(symbols: Seq<ElfSymbol<'_>>, name: Seq<char>, i: int) -> bool {
    symbols[i].name is Some && symbols[i].name->0@ == name
}

/// A table is read entry by entry: name and address of each, in order.
pub proof fn law_table_entries<'a>(symbols: Seq<ElfSymbol<'a>>)
    ensures
        table_view(symbols).len() == symbols.len(),
        forall|i: int|
            0 <= i < symbols.len() ==> {
                &&& (#[trigger] table_view(symbols)[i]).1 == symbols[i].address
                &&& table_view(symbols)[i].0 is Some <==> symbols[i].name is Some
                &&& symbols[i].name is Some ==> table_view(symbols)[i].0->0
                    == symbols[i].name->0@
            },
{
}

/// The address found is that of a symbol with exactly the name asked for, before which no
/// other has it. Where none is found, no symbol has the name.
pub proof fn law_found_symbol<'a>(
    symbols: &Vec<ElfSymbol<'a>>,
    name: &str,
    address: Option<u64>,
)
    requires
        call_ensures(find_symbol_address, (symbols, name), address),
    ensures
        address is Some ==> exists|i: int|
            {
                &&& 0 <= i < symbols@.len()
                &&& #[trigger] called(symbols@, name@, i)
                &&& symbols@[i].address == address->0
                &&& forall|j: int| 0 <= j < i ==> !#[trigger] called(symbols@, name@, j)
            },
        address is None ==> forall|i: int|
            0 <= i < symbols@.len() ==> !#[trigger] called(symbols@, name@, i),
{
    let table = table_view(symbols@);
    assert forall|i: int| 0 <= i < symbols@.len() implies (#[trigger] called(symbols@, name@, i)
        <==> named_at(table, name@, i)) by {
        assert(table[i] == symbols@[i]@);
    }
    if address is Some {
        let i = choose|i: int|
            {
                &&& #[trigger] named_at(table, name@, i)
                &&& table[i].1 == address->0
                &&& forall|j: int| #[trigger] named_at(table, name@, j) ==> i <= j
            };
        assert(called(symbols@, name@, i));
    }
}

/// The address of a symbol in an image is that of the first entry of the image's symbol table
/// that has exactly the name; there is none where no entry has it, or the bytes are no image:
/// where they are too few, or do not start as an image does.
pub proof fn law_elf_symbol(elf: &[u8], name: &str, address: Option<u64>)
    requires
        call_ensures(elf_symbol_address, (elf, name), address),
    ensures
        elf@.len() < 16 ==> address is None,
        elf@[0] != 0x7f || elf@[1] != 0x45 || elf@[2] != 0x4c || elf@[3] != 0x46
            ==> address is None,
        elf_symbol_table(elf@) is None ==> address is None,
        elf_symbol_table(elf@) is Some ==> {
            let table = elf_symbol_table(elf@)->0;
            &&& address is Some ==> exists|i: int|
                {
                    &&& 0 <= i < table.len()
                    &&& (#[trigger] table[i]).0 == Some(name@)
                    &&& table[i].1 == address->0
                    &&& forall|j: int| 0 <= j < i ==> (#[trigger] table[j]).0 != Some(name@)
                }
            &&& address is None ==> forall|i: int|
                0 <= i < table.len() ==> (#[trigger] table[i]).0 != Some(name@)
        },
{
    if elf_symbol_table(elf@) is Some {
        let table = elf_symbol_table(elf@)->0;
        assert(is_first_address(table, name@, address));
        assert forall|i: int| 0 <= i < table.len() implies (named_at(table, name@, i) <==> (
        #[trigger] table[i]).0 == Some(name@)) by {}
        if address is Some {
            let i = choose|i: int|
                {
                    &&& #[trigger] named_at(table, name@, i)
                    &&& table[i].1 == address->0
                    &&& forall|j: int| #[trigger] named_at(table, name@, j) ==> i <= j
                };
            assert(table[i].0 == Some(name@));
        }
    }
}

/// The RTT control block is the symbol `_SEGGER_RTT`: looking for it and looking for that name
/// give the same.
pub proof fn law_rtt_symbol(elf: &[u8], name: &str, address: Option<u64>, rtt: Option<u64>)
    requires
        name@ == "_SEGGER_RTT"@,
        call_ensures(elf_symbol_address, (elf, name), address),
        call_ensures(rtt_symbol_address, (elf,), rtt),
    ensures
        rtt == address,
{
    if elf_symbol_table(elf@) is Some {
        law_first_address_is_unique(elf_symbol_table(elf@)->0, name@, address, rtt);
    }
}

} // verus!
