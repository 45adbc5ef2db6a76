use modality_trace_recorder_plugin::collector::{
    ItmBuffer, ItmItem, ItmPayload, ItmProbeSettings, ItmSettingsError, PollInterval, PollRate,
};
use modality_trace_recorder_plugin::config::{ItmCollectorConfig, TcpCollectorConfig};
use modality_trace_recorder_plugin::elf::{
    find_symbol, get_rtt_symbol, get_symbol, ElfSymbol, SymbolNotFound, TzHostCommandVariables,
};

#[test]
fn itm_stream_keeps_byte_order() {
    let mut b = ItmBuffer::new(1);
    match b.payload_of(ItmItem::Instrumentation { port: 1, payload: vec![1, 2, 3] }) {
        ItmPayload::Data(d) => b.push(d),
        _ => panic!("expected data"),
    }
    assert!(matches!(b.payload_of(ItmItem::Instrumentation { port: 2, payload: vec![9] }), ItmPayload::Nothing));
    assert!(matches!(b.payload_of(ItmItem::IoError), ItmPayload::IoError));
    assert!(matches!(b.payload_of(ItmItem::Malformed), ItmPayload::Nothing));
    b.push(vec![4, 5]);
    assert!(!b.needs_more(4));
    assert_eq!(b.take(4), vec![1, 2, 3, 4]);
    assert!(b.needs_more(2));
    assert_eq!(b.take(8), vec![5]);
    assert!(b.take(1).is_empty());
}

#[test]
fn rtt_poll_rate_follows_data() {
    let mut p = PollRate::new();
    assert_eq!(p.on_poll(10), None);
    assert_eq!(p.on_poll(0), Some(PollInterval::NoData));
    assert_eq!(p.on_poll(0), None);
    assert_eq!(p.on_poll(3), Some(PollInterval::Data));
}

#[test]
fn tcp_options() {
    let mut c = TcpCollectorConfig::default_config();
    assert_eq!(c.remote_or_default(), "127.0.0.1:8888");
    c.apply_opts(true, false, Some(0), Some("10.0.0.1:1234".to_owned()));
    assert!(c.disable_control_plane);
    assert_eq!(c.remote_or_default(), "10.0.0.1:1234");
    assert_eq!(c.effective_connect_timeout_ms(), None);
    c.apply_opts(false, false, Some(100), None);
    assert_eq!(c.effective_connect_timeout_ms(), Some(100));
    assert!(c.disable_control_plane);
}

#[test]
fn symbols_of_non_elf_data() {
    assert_eq!(get_rtt_symbol(b"not an elf file"), None);
    assert_eq!(get_symbol(&[], "_SEGGER_RTT"), None);
    assert_eq!(TzHostCommandVariables::load_from_elf(b"junk"), Err(SymbolNotFound::HostCommandData));
    assert_eq!(SymbolNotFound::HostCommandLength.symbol(), "tz_host_command_bytes_to_read");
}

fn put16(v: &mut Vec<u8>, x: u16) {
    v.extend_from_slice(&x.to_le_bytes());
}

fn put32(v: &mut Vec<u8>, x: u32) {
    v.extend_from_slice(&x.to_le_bytes());
}

fn put64(v: &mut Vec<u8>, x: u64) {
    v.extend_from_slice(&x.to_le_bytes());
}

/// A section header of a 64-bit ELF file
fn put_section(f: &mut Vec<u8>, name: u32, ty: u32, off: u64, size: u64, link: u32, info: u32, entsize: u64) {
    put32(f, name);
    put32(f, ty);
    put64(f, 0);
    put64(f, 0);
    put64(f, off);
    put64(f, size);
    put32(f, link);
    put32(f, info);
    put64(f, 1);
    put64(f, entsize);
}

/// A little-endian 64-bit ELF file with a symbol table holding the given symbols
fn elf_with_symbols(symbols: &[(&str, u64)]) -> Vec<u8> {

    let mut strtab: Vec<u8> = vec![0];
    let mut name_offsets = Vec::new();
    for (name, _) in symbols {
        name_offsets.push(strtab.len() as u32);
        strtab.extend_from_slice(name.as_bytes());
        strtab.push(0);
    }
    let mut symtab: Vec<u8> = vec![0; 24];
    for ((_, value), name_off) in symbols.iter().zip(name_offsets.iter()) {
        put32(&mut symtab, *name_off);
        symtab.push(0x11); // global object
        symtab.push(0);
        put16(&mut symtab, 0xfff1); // absolute
        put64(&mut symtab, *value);
        put64(&mut symtab, 4);
    }
    let shstrtab: &[u8] = b"\0.symtab\0.strtab\0.shstrtab\0";

    let strtab_off = 64u64;
    let symtab_off = strtab_off + strtab.len() as u64;
    let shstrtab_off = symtab_off + symtab.len() as u64;
    let sh_off = shstrtab_off + shstrtab.len() as u64;

    let mut f = Vec::new();
    f.extend_from_slice(&[0x7f, b'E', b'L', b'F', 2, 1, 1, 0, 0, 0, 0, 0, 0, 0, 0, 0]);
    put16(&mut f, 2); // executable
    put16(&mut f, 0x3e);
    put32(&mut f, 1);
    put64(&mut f, 0); // entry
    put64(&mut f, 0); // program headers
    put64(&mut f, sh_off);
    put32(&mut f, 0);
    put16(&mut f, 64);
    put16(&mut f, 56);
    put16(&mut f, 0);
    put16(&mut f, 64);
    put16(&mut f, 4); // sections
    put16(&mut f, 3); // section name table
    f.extend_from_slice(&strtab);
    f.extend_from_slice(&symtab);
    f.extend_from_slice(shstrtab);

    put_section(&mut f, 0, 0, 0, 0, 0, 0, 0);
    put_section(&mut f, 1, 2, symtab_off, symtab.len() as u64, 2, 1, 24);
    put_section(&mut f, 9, 3, strtab_off, strtab.len() as u64, 0, 0, 0);
    put_section(&mut f, 17, 3, shstrtab_off, shstrtab.len() as u64, 0, 0, 0);
    f
}

#[test]
fn symbols_of_an_elf_file() {
    let elf = elf_with_symbols(&[
        ("_SEGGER_RTT", 0x2000_0400),
        ("tz_host_command_bytes_to_read", 0x2000_0010),
    ]);
    assert_eq!(get_rtt_symbol(&elf), Some(0x2000_0400));
    assert_eq!(get_symbol(&elf, "tz_host_command_bytes_to_read"), Some(0x2000_0010));
    assert_eq!(get_symbol(&elf, "tz_host_command_data"), None);
    assert_eq!(TzHostCommandVariables::load_from_elf(&elf), Err(SymbolNotFound::HostCommandData));

    let both = elf_with_symbols(&[
        ("tz_host_command_data", 0x2000_0100),
        ("tz_host_command_bytes_to_read", 0x2000_0010),
    ]);
    assert_eq!(
        TzHostCommandVariables::load_from_elf(&both),
        Ok(TzHostCommandVariables {
            tz_host_command_bytes_to_read_addr: 0x2000_0010,
            tz_host_command_data_addr: 0x2000_0100,
        })
    );
    assert_eq!(get_rtt_symbol(&both), None);
}

#[test]
fn itm_probe_settings_are_checked_in_order() {
    let mut c = ItmCollectorConfig::default_config();
    assert_eq!(c.probe_settings(), Err(ItmSettingsError::MissingItmPortVariables));
    c.elf_file = Some("fw.elf".to_owned());
    assert_eq!(c.probe_settings(), Err(ItmSettingsError::MissingClk));
    c.clk = Some(16_000_000);
    assert_eq!(c.probe_settings(), Err(ItmSettingsError::MissingBaud));
    c.baud = Some(115_200);
    assert_eq!(c.probe_settings(), Err(ItmSettingsError::MissingChip));
    c.chip = Some("STM32F407VE".to_owned());
    c.stimulus_port = 32;
    assert_eq!(c.probe_settings(), Err(ItmSettingsError::InvalidStimulusPort(32)));
    c.stimulus_port = 31;
    assert_eq!(
        c.probe_settings(),
        Ok(ItmProbeSettings { clk: 16_000_000, baud: 115_200, chip: "STM32F407VE".to_owned() })
    );
}

#[test]
fn first_symbol_of_a_table() {
    let syms = vec![
        ElfSymbol { name: None, value: 1 },
        ElfSymbol { name: Some("a".to_owned()), value: 2 },
        ElfSymbol { name: Some("a".to_owned()), value: 3 },
    ];
    assert_eq!(find_symbol(&syms, "a"), Some(2));
    assert_eq!(find_symbol(&syms, "b"), None);
}
