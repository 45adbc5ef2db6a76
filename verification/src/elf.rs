//! Debug symbol lookup in ELF files: where the RTT control block and the host command
//! variables live on the target.

use crate::text::text_eq;
use vstd::prelude::*;
use vstd::string::*;

verus! {

/// One symbol of an ELF file's symbol table: its name (when the string table has one)
/// and its value
pub struct ElfSymbol {
    pub name: Option<String>,
    pub value: u64,
}

/// The symbols of the ELF file with the given contents, in table order, each by its name
/// text (when it has one) and value; none when the contents are not an ELF file
pub uninterp spec fn elf_symbol_table(contents: Seq<u8>) -> Option<Seq<(Option<Seq<char>>, u64)>>;

/// The meaning of a list of symbols
pub open spec fn symbols_view(s: Seq<ElfSymbol>) -> Seq<(Option<Seq<char>>, u64)> {
    s.map_values(
        |e: ElfSymbol|
            (
                match e.name {
                    Some(n) => Some(n@),
                    None => None,
                },
                e.value,
            ),
    )
}

/// `goblin::elf::Elf::parse` and its symbol table: each symbol's name from the string
/// table, and its value. The parsing itself is not written out here; the result is named
/// by `elf_symbol_table`.
#[verifier::external_body]
fn elf_symbols(contents: &[u8]) -> (r: Option<Vec<ElfSymbol>>)
    ensures
        match r {
            Some(syms) => elf_symbol_table(contents@) == Some(symbols_view(syms@)),
            None => elf_symbol_table(contents@) is None,
        },
{
    match goblin::elf::Elf::parse(contents) {
        Ok(elf) => Some(
            elf.syms.iter().map(
                |sym| ElfSymbol {
                    name: elf.strtab.get_at(sym.st_name).map(|n| n.to_string()),
                    value: sym.st_value,
                },
            ).collect(),
        ),
        Err(_) => None,
    }
}

/// The value of the first symbol, in table order, named `name`
pub open spec fn first_symbol(syms: Seq<(Option<Seq<char>>, u64)>, name: Seq<char>) -> Option<u64>
    decreases syms.len(),
{
    if syms.len() == 0 {
        None
    } else if syms[0].0 == Some(name) {
        Some(syms[0].1)
    } else {
        first_symbol(syms.drop_first(), name)
    }
}

/// The value of the symbol named `name` in the ELF file with the given contents
pub open spec fn symbol_in(contents: Seq<u8>, name: Seq<char>) -> Option<u64> {
    match elf_symbol_table(contents) {
        Some(syms) => first_symbol(syms, name),
        None => None,
    }
}

/// The value of the first symbol named `name`
pub fn find_symbol(syms: &Vec<ElfSymbol>, name: &str) -> (r: Option<u64>)
    ensures
        r == first_symbol(symbols_view(syms@), name@),
{
    let ghost v = symbols_view(syms@);
    let mut i: usize = 0;
    assert(v.subrange(0, v.len() as int) =~= v);
    while i < syms.len()
        invariant
            i <= syms@.len(),
            v == symbols_view(syms@),
            v.len() == syms@.len(),
            first_symbol(v, name@) == first_symbol(v.subrange(i as int, v.len() as int), name@),
        decreases syms@.len() - i,
    {
        let ghost rest = v.subrange(i as int, v.len() as int);
        assert(rest[0] == v[i as int]);
        let matched = match &syms[i].name {
            Some(n) => text_eq(n.as_str(), name),
            None => false,
        };
        if matched {
            return Some(syms[i].value);
        }
        assert(rest.drop_first() =~= v.subrange(i + 1, v.len() as int));
        i = i + 1;
    }
    None
}

/// The value of the debug symbol `symbol` in the ELF file with the given contents
pub fn get_symbol(contents: &[u8], symbol: &str) -> (r: Option<u64>)
    ensures
        r == symbol_in(contents@, symbol@),
{
    match elf_symbols(contents) {
        Some(syms) => find_symbol(&syms, symbol),
        None => None,
    }
}

/// The RTT control block's symbol
pub open spec fn rtt_symbol() -> Seq<char> {
    "_SEGGER_RTT"@
}

/// The address of the RTT control block in the ELF file with the given contents
pub fn get_rtt_symbol(contents: &[u8]) -> (r: Option<u64>)
    ensures
        r == symbol_in(contents@, rtt_symbol()),
{
    proof {
        reveal_strlit("_SEGGER_RTT");
    }
    get_symbol(contents, "_SEGGER_RTT")
}

/// The symbol of the target's host command length variable
pub open spec fn host_cmd_len_symbol() -> Seq<char> {
    "tz_host_command_bytes_to_read"@
}

/// The symbol of the target's host command data variable
pub open spec fn host_cmd_data_symbol() -> Seq<char> {
    "tz_host_command_data"@
}

/// The addresses of the target's host command variables
#[derive(Copy, Clone, PartialEq, Eq, Structural, Debug)]
pub struct TzHostCommandVariables {
    pub tz_host_command_bytes_to_read_addr: u64,
    pub tz_host_command_data_addr: u64,
}

/// A debug symbol that the ELF file lacks
#[derive(Copy, Clone, PartialEq, Eq, Structural, Debug)]
pub enum SymbolNotFound {
    /// The host command length variable
    HostCommandLength,
    /// The host command data variable
    HostCommandData,
}

impl SymbolNotFound {
    pub open spec fn spec_symbol(self) -> Seq<char> {
        match self {
            SymbolNotFound::HostCommandLength => host_cmd_len_symbol(),
            SymbolNotFound::HostCommandData => host_cmd_data_symbol(),
        }
    }

    /// The missing symbol's name
    pub fn symbol(self) -> (r: &'static str)
        ensures
            r@ == self.spec_symbol(),
    {
        match self {
            SymbolNotFound::HostCommandLength => {
                proof {
                    reveal_strlit("tz_host_command_bytes_to_read");
                }
                "tz_host_command_bytes_to_read"
            },
            SymbolNotFound::HostCommandData => {
                proof {
                    reveal_strlit("tz_host_command_data");
                }
                "tz_host_command_data"
            },
        }
    }
}

impl TzHostCommandVariables {
    /// The host command variables of the ELF file with the given contents; when both are
    /// missing, the data variable is the one reported
    pub fn load_from_elf(contents: &[u8]) -> (r: Result<TzHostCommandVariables, SymbolNotFound>)
        ensures
            ({
                let len = symbol_in(contents@, host_cmd_len_symbol());
                let data = symbol_in(contents@, host_cmd_data_symbol());
                r == match (len, data) {
                    (Some(l), Some(d)) => Ok::<TzHostCommandVariables, SymbolNotFound>(
                        TzHostCommandVariables {
                            tz_host_command_bytes_to_read_addr: l,
                            tz_host_command_data_addr: d,
                        },
                    ),
                    (Some(_), None) => Err(SymbolNotFound::HostCommandData),
                    (None, Some(_)) => Err(SymbolNotFound::HostCommandLength),
                    (None, None) => Err(SymbolNotFound::HostCommandData),
                }
            }),
    {
        proof {
            reveal_strlit("tz_host_command_bytes_to_read");
            reveal_strlit("tz_host_command_data");
        }
        let len = get_symbol(contents, "tz_host_command_bytes_to_read");
        let data = get_symbol(contents, "tz_host_command_data");
        match (len, data) {
            (Some(l), Some(d)) => Ok(
                TzHostCommandVariables { tz_host_command_bytes_to_read_addr: l, tz_host_command_data_addr: d },
            ),
            (Some(_), None) => Err(SymbolNotFound::HostCommandData),
            (None, Some(_)) => Err(SymbolNotFound::HostCommandLength),
            (None, None) => Err(SymbolNotFound::HostCommandData),
        }
    }
}

} // verus!
