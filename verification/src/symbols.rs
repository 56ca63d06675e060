//! Symbol lookup in ELF images.
use object::{Object, ObjectSymbol};
use vstd::prelude::*;

verus! {

/// One entry of a symbol table.
#[derive(Clone, Copy, Debug, PartialEq, Eq)]
pub struct ElfSymbol<'a> {
    /// The name, or `None` where the string table does not give a UTF-8 one.
    pub name: Option<&'a str>,
    pub address: u64,
}

impl<'a> View for ElfSymbol<'a> {
    type V = (Option<Seq<char>>, u64);

    open spec fn view(&self) -> Self::V {
        (
            match self.name {
                Some(name) => Some(name@),
                None => None,
            },
            self.address,
        )
    }
}

/// What a symbol table holds, entry by entry.
pub open spec fn table_view<'a>(symbols: Seq<ElfSymbol<'a>>) -> Seq<(Option<Seq<char>>, u64)> {
    symbols.map_values(|symbol: ElfSymbol<'a>| symbol@)
}

/// Entry `i` of `table` carries exactly the name `name`.
pub open spec fn named_at(
    table: Seq<(Option<Seq<char>>, u64)>,
    name: Seq<char>,
    i: int,
) -> bool {
    0 <= i < table.len() && table[i].0 == Some(name)
}

/// `address` is that of the first entry of `table` called `name`; `None` if none is.
pub open spec fn is_first_address(
    table: Seq<(Option<Seq<char>>, u64)>,
    name: Seq<char>,
    address: Option<u64>,
) -> bool {
    match address {
        Some(a) => exists|i: int|
            {
                &&& #[trigger] named_at(table, name, i)
                &&& table[i].1 == a
                &&& forall|j: int| #[trigger] named_at(table, name, j) ==> i <= j
            },
        None => forall|i: int| !#[trigger] named_at(table, name, i),
    }
}

/// The bytes start like an ELF image of either class.
pub open spec fn has_elf_magic(bytes: Seq<u8>) -> bool {
    &&& bytes.len() >= 16
    &&& bytes[0] == 0x7f && bytes[1] == 0x45 && bytes[2] == 0x4c && bytes[3] == 0x46
    &&& bytes[4] == 1 || bytes[4] == 2
}

/// The symbol table of an ELF image, in file order; `None` where the bytes are no
/// ELF image.
pub uninterp spec fn elf_symbol_table(elf: Seq<u8>) -> Option<Seq<(Option<Seq<char>>, u64)>>;

/// Calls `object::File::parse`, then hands out each item of `Object::symbols` as
/// plain values: `ObjectSymbol::name` (`None` for its error) and
/// `ObjectSymbol::address`. The crate is built with its ELF reader alone, and reads
/// unaligned bytes. The contract claims that the outcome depends on the bytes alone, and
/// that bytes without the magic number of an ELF image are refused; which table an image
/// holds is left unsaid.
#[verifier::external_body]
fn read_symbol_table(elf: &[u8]) -> (table: Option<Vec<ElfSymbol<'_>>>)
    ensures
        (match table {
            Some(symbols) => Some(table_view(symbols@)),
            None => None,
        }) == elf_symbol_table(elf@),
        table is Some ==> has_elf_magic(elf@),
{
    let file = object::File::parse(elf).ok()?;
    let symbols = file.symbols().map(|symbol| ElfSymbol {
        name: symbol.name().ok(),
        address: symbol.address(),
    });
    Some(symbols.collect())
}

/// Whether two texts are the same.
fn same_text(a: &str, b: &str) -> (same: bool)
    ensures
        same == (a@ == b@),
{
    let (a_bytes, b_bytes): (&[u8], &[u8]) = (a.as_bytes(), b.as_bytes());
    if a_bytes.len() != b_bytes.len() {
        return false;
    }
    let mut i: usize = 0;
    while i < a_bytes.len()
        invariant
            i <= a_bytes.len(),
            a_bytes.len() == b_bytes.len(),
            a_bytes@ == vstd::utf8::encode_utf8(a@),
            b_bytes@ == vstd::utf8::encode_utf8(b@),
            forall|j: int| 0 <= j < i ==> a_bytes@[j] == #[trigger] b_bytes@[j],
        decreases a_bytes.len() - i,
    {
        if a_bytes[i] != b_bytes[i] {
            return false;
        }
        i += 1;
    }
    proof {
        assert(a_bytes@ =~= b_bytes@);
        vstd::utf8::encode_utf8_decode_utf8(a@);
        vstd::utf8::encode_utf8_decode_utf8(b@);
    }
    true
}

/// Address of the first symbol called exactly `name`, if there is one.
pub fn find_symbol_address(symbols: &Vec<ElfSymbol<'_>>, name: &str) -> (address: Option<u64>)
    ensures
        is_first_address(table_view(symbols@), name@, address),
{
    let mut i: usize = 0;
    while i < symbols.len()
        invariant
            i <= symbols.len(),
            forall|j: int|
                #[trigger] named_at(table_view(symbols@), name@, j) ==> i <= j,
        decreases symbols.len() - i,
    {
        let symbol: &ElfSymbol<'_> = &symbols[i];
        if let Some(symbol_name) = symbol.name {
            if same_text(symbol_name, name) {
                assert(named_at(table_view(symbols@), name@, i as int));
                return Some(symbol.address);
            }
        }
        i += 1;
    }
    None
}

/// Address of a symbol in an ELF (exact name match), if present.
pub fn elf_symbol_address(elf: &[u8], name: &str) -> (address: Option<u64>)
    ensures
        match elf_symbol_table(elf@) {
            Some(table) => is_first_address(table, name@, address),
            None => address is None,
        },
        !has_elf_magic(elf@) ==> address is None,
{
    match read_symbol_table(elf) {
        Some(symbols) => find_symbol_address(&symbols, name),
        None => None,
    }
}

/// Address of the RTT control block (`_SEGGER_RTT`) in an ELF, if present. With it, an
/// exact scan region can be used instead of a scan of all of RAM.
pub fn rtt_symbol_address(elf: &[u8]) -> (address: Option<u64>)
    ensures
        match elf_symbol_table(elf@) {
            Some(table) => is_first_address(table, "_SEGGER_RTT"@, address),
            None => address is None,
        },
        !has_elf_magic(elf@) ==> address is None,
{
    elf_symbol_address(elf, "_SEGGER_RTT")
}

/// There is one right answer: two addresses that are both the first of a name agree.
pub proof fn law_first_address_is_unique(
    table: Seq<(Option<Seq<char>>, u64)>,
    name: Seq<char>,
    a: Option<u64>,
    b: Option<u64>,
)
    requires
        is_first_address(table, name, a),
        is_first_address(table, name, b),
    ensures
        a == b,
{
}

/// A lookup succeeds exactly where some symbol has the name.
pub proof fn law_found_iff_named(
    table: Seq<(Option<Seq<char>>, u64)>,
    name: Seq<char>,
    address: Option<u64>,
)
    requires
        is_first_address(table, name, address),
    ensures
        address is Some <==> exists|i: int| named_at(table, name, i),
{
}

/// What follows the first symbol of a name does not matter.
pub proof fn law_later_symbols_do_not_matter(
    table: Seq<(Option<Seq<char>>, u64)>,
    more: Seq<(Option<Seq<char>>, u64)>,
    name: Seq<char>,
    address: u64,
)
    requires
        is_first_address(table, name, Some(address)),
    ensures
        is_first_address(table + more, name, Some(address)),
{
    let i = choose|i: int|
        {
            &&& #[trigger] named_at(table, name, i)
            &&& table[i].1 == address
            &&& forall|j: int| #[trigger] named_at(table, name, j) ==> i <= j
        };
    assert(named_at(table + more, name, i));
    assert forall|j: int| #[trigger] named_at(table + more, name, j) implies i <= j by {
        if j < table.len() {
            assert(named_at(table, name, j));
        }
    }
}

} // verus!
