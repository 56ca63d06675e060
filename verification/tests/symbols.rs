use probe_web_core::symbols::{
    elf_symbol_address, find_symbol_address, rtt_symbol_address, ElfSymbol,
};

fn put16(out: &mut Vec<u8>, value: u16, big: bool) {
    let bytes = if big { value.to_be_bytes() } else { value.to_le_bytes() };
    out.extend_from_slice(&bytes);
}

fn put32(out: &mut Vec<u8>, value: u32, big: bool) {
    let bytes = if big { value.to_be_bytes() } else { value.to_le_bytes() };
    out.extend_from_slice(&bytes);
}

fn put64(out: &mut Vec<u8>, value: u64, big: bool) {
    let bytes = if big { value.to_be_bytes() } else { value.to_le_bytes() };
    out.extend_from_slice(&bytes);
}

fn word(out: &mut Vec<u8>, value: u64, wide: bool, big: bool) {
    if wide {
        put64(out, value, big)
    } else {
        put32(out, value as u32, big)
    }
}

/// An ELF image whose sections are a symbol table and its string table.
fn image(symbols: &[(&[u8], u64)], wide: bool, big: bool) -> Vec<u8> {
    let header_len: u64 = if wide { 64 } else { 52 };
    let section_len: u64 = if wide { 64 } else { 40 };
    let symbol_len: u64 = if wide { 24 } else { 16 };

    let mut strings = vec![0u8];
    let mut table = vec![0u8; symbol_len as usize];
    for (name, address) in symbols {
        let at = strings.len() as u32;
        strings.extend_from_slice(name);
        strings.push(0);
        put32(&mut table, at, big);
        if wide {
            table.push(0x11);
            table.push(0);
            put16(&mut table, 0xfff1, big);
            put64(&mut table, *address, big);
            put64(&mut table, 0, big);
        } else {
            put32(&mut table, *address as u32, big);
            put32(&mut table, 0, big);
            table.push(0x11);
            table.push(0);
            put16(&mut table, 0xfff1, big);
        }
    }

    let table_at = header_len;
    let strings_at = table_at + table.len() as u64;
    let sections_at = strings_at + strings.len() as u64;

    let mut out = vec![0x7f, b'E', b'L', b'F'];
    out.push(if wide { 2 } else { 1 });
    out.push(if big { 2 } else { 1 });
    out.push(1);
    out.resize(16, 0);
    put16(&mut out, 2, big);
    put16(&mut out, 40, big);
    put32(&mut out, 1, big);
    word(&mut out, 0, wide, big);
    word(&mut out, 0, wide, big);
    word(&mut out, sections_at, wide, big);
    put32(&mut out, 0, big);
    put16(&mut out, header_len as u16, big);
    put16(&mut out, 0, big);
    put16(&mut out, 0, big);
    put16(&mut out, section_len as u16, big);
    put16(&mut out, 3, big);
    put16(&mut out, 2, big);
    assert_eq!(out.len() as u64, header_len);

    out.extend_from_slice(&table);
    out.extend_from_slice(&strings);
    out.extend_from_slice(&vec![0u8; section_len as usize]);
    for (kind, at, len, link, entry) in [
        (2u32, table_at, table.len() as u64, 2u32, symbol_len),
        (3u32, strings_at, strings.len() as u64, 0u32, 0u64),
    ] {
        put32(&mut out, 0, big);
        put32(&mut out, kind, big);
        word(&mut out, 0, wide, big);
        word(&mut out, 0, wide, big);
        word(&mut out, at, wide, big);
        word(&mut out, len, wide, big);
        put32(&mut out, link, big);
        put32(&mut out, 0, big);
        word(&mut out, 1, wide, big);
        word(&mut out, entry, wide, big);
    }
    out
}

fn symbol(name: Option<&str>, address: u64) -> ElfSymbol<'_> {
    ElfSymbol { name, address }
}

#[test]
fn symbols_are_found_by_exact_name() {
    let elf = image(
        &[
            (b"main", 0x0800_0100),
            (b"_SEGGER_RTT", 0x2000_0400),
            (b"_SEGGER_RTT_END", 0x2000_0500),
        ],
        true,
        false,
    );
    assert_eq!(elf_symbol_address(&elf, "main"), Some(0x0800_0100));
    assert_eq!(elf_symbol_address(&elf, "_SEGGER_RTT_END"), Some(0x2000_0500));
    assert_eq!(elf_symbol_address(&elf, "_SEGGER"), None);
    assert_eq!(elf_symbol_address(&elf, "MAIN"), None);
    assert_eq!(elf_symbol_address(&elf, ""), None);
}

#[test]
fn rtt_control_block_is_found() {
    let symbols: &[(&[u8], u64)] = &[(b"main", 0x0800_0100), (b"_SEGGER_RTT", 0x2000_0400)];
    for (wide, big) in [(true, false), (true, true), (false, false), (false, true)] {
        let elf = image(symbols, wide, big);
        assert_eq!(rtt_symbol_address(&elf), Some(0x2000_0400));
        assert_eq!(
            rtt_symbol_address(&elf),
            elf_symbol_address(&elf, "_SEGGER_RTT")
        );
    }
}

#[test]
fn image_without_rtt_has_no_control_block() {
    let elf = image(&[(b"main", 0x0800_0100)], true, false);
    assert_eq!(rtt_symbol_address(&elf), None);
    let elf = image(&[], true, false);
    assert_eq!(rtt_symbol_address(&elf), None);
}

#[test]
fn first_of_equal_names_counts() {
    let elf = image(&[(b"x", 1), (b"y", 2), (b"x", 3)], true, false);
    assert_eq!(elf_symbol_address(&elf, "x"), Some(1));
    assert_eq!(elf_symbol_address(&elf, "y"), Some(2));
}

#[test]
fn names_that_are_not_utf8_are_passed_over() {
    let elf = image(&[(b"\xff\xfe", 1), (b"caf\xc3\xa9", 2)], true, false);
    assert_eq!(elf_symbol_address(&elf, "caf\u{e9}"), Some(2));
    assert_eq!(elf_symbol_address(&elf, "\u{fffd}\u{fffd}"), None);
}

#[test]
fn unaligned_bytes_are_read_alike() {
    let elf = image(&[(b"_SEGGER_RTT", 0x2000_0400)], true, false);
    for shift in 0..8usize {
        let mut padded = vec![0u8; shift];
        padded.extend_from_slice(&elf);
        assert_eq!(rtt_symbol_address(&padded[shift..]), Some(0x2000_0400));
    }
}

#[test]
fn other_bytes_are_refused() {
    assert_eq!(elf_symbol_address(&[], "main"), None);
    assert_eq!(elf_symbol_address(b"\x7fELF", "main"), None);
    assert_eq!(elf_symbol_address(&[0u8; 64], "main"), None);
    assert_eq!(elf_symbol_address(b"MZ and some more bytes", "main"), None);
    let elf = image(&[(b"main", 1)], true, false);
    assert_eq!(elf_symbol_address(&elf[..elf.len() - 1], "main"), None);
    let mut class = elf.clone();
    class[4] = 3;
    assert_eq!(elf_symbol_address(&class, "main"), None);
}

#[test]
fn lookup_in_a_table() {
    let table = vec![
        symbol(None, 1),
        symbol(Some("a"), 2),
        symbol(Some("b"), 3),
        symbol(Some("a"), 4),
    ];
    assert_eq!(find_symbol_address(&table, "a"), Some(2));
    assert_eq!(find_symbol_address(&table, "b"), Some(3));
    assert_eq!(find_symbol_address(&table, "c"), None);
    assert_eq!(find_symbol_address(&Vec::new(), "a"), None);
}

#[test]
fn later_symbols_do_not_matter() {
    let mut table = vec![symbol(Some("a"), 2)];
    let before = find_symbol_address(&table, "a");
    table.push(symbol(Some("a"), 9));
    assert_eq!(find_symbol_address(&table, "a"), before);
}
