//! Deviant custom events: mutator and mutation events that a target reports as custom
//! events at a configured base event ID.

use crate::attr_keys::{int_attr, AttrValue};
use crate::error::Error;
use crate::event::spec_event_id;
use crate::recorder_data::Endianness;
use crate::text::{decimal, hex_upper, u64_to_decimal, u64_to_hex_upper};
use vstd::prelude::*;
use vstd::string::*;

verus! {

/// Event ID offsets from the base
pub const MUTATOR_ANNOUNCED_OFFSET: u16 = 0;

pub const MUTATOR_RETIRED_OFFSET: u16 = 1;

pub const MUTATION_CMD_COMM_OFFSET: u16 = 2;

pub const MUTATION_CLR_COMM_OFFSET: u16 = 3;

pub const MUTATION_TRIGGERED_OFFSET: u16 = 4;

pub const MUTATION_INJECTED_OFFSET: u16 = 5;

/// The largest event ID
pub const MAX_EVENT_ID: u16 = 0x0FFF;

/// The kinds of deviant events
#[derive(Copy, Clone, PartialEq, Eq, Structural, Debug, Hash)]
pub enum DeviantEventKind {
    MutatorAnnounced,
    MutatorRetired,
    MutationCmdCommunicated,
    MutationClearCommunicated,
    MutationTriggered,
    MutationInjected,
}

impl DeviantEventKind {
    pub open spec fn spec_modality_name(self) -> Seq<char> {
        match self {
            DeviantEventKind::MutatorAnnounced => "modality.mutator.announced"@,
            DeviantEventKind::MutatorRetired => "modality.mutator.retired"@,
            DeviantEventKind::MutationCmdCommunicated => "modality.mutation.command_communicated"@,
            DeviantEventKind::MutationClearCommunicated => "modality.mutation.clear_communicated"@,
            DeviantEventKind::MutationTriggered => "modality.mutation.triggered"@,
            DeviantEventKind::MutationInjected => "modality.mutation.injected"@,
        }
    }

    /// The Modality event name of the kind
    pub fn to_modality_name(self) -> (r: &'static str)
        ensures
            r@ == self.spec_modality_name(),
    {
        match self {
            DeviantEventKind::MutatorAnnounced => {
                proof {
                    reveal_strlit("modality.mutator.announced");
                }
                "modality.mutator.announced"
            },
            DeviantEventKind::MutatorRetired => {
                proof {
                    reveal_strlit("modality.mutator.retired");
                }
                "modality.mutator.retired"
            },
            DeviantEventKind::MutationCmdCommunicated => {
                proof {
                    reveal_strlit("modality.mutation.command_communicated");
                }
                "modality.mutation.command_communicated"
            },
            DeviantEventKind::MutationClearCommunicated => {
                proof {
                    reveal_strlit("modality.mutation.clear_communicated");
                }
                "modality.mutation.clear_communicated"
            },
            DeviantEventKind::MutationTriggered => {
                proof {
                    reveal_strlit("modality.mutation.triggered");
                }
                "modality.mutation.triggered"
            },
            DeviantEventKind::MutationInjected => {
                proof {
                    reveal_strlit("modality.mutation.injected");
                }
                "modality.mutation.injected"
            },
        }
    }

    /// Mutator events carry one UUID; mutation events two UUIDs and a 32-bit status
    pub open spec fn spec_expected_parameter_byte_count(self) -> nat {
        match self {
            DeviantEventKind::MutatorAnnounced | DeviantEventKind::MutatorRetired => 16,
            _ => 16 + 16 + 4,
        }
    }

    /// The number of parameter bytes an event of the kind carries
    pub fn expected_parameter_byte_count(self) -> (r: usize)
        ensures
            r == self.spec_expected_parameter_byte_count(),
    {
        match self {
            DeviantEventKind::MutatorAnnounced | DeviantEventKind::MutatorRetired => 16,
            _ => 16 + 16 + 4,
        }
    }

    /// The kind of the event with ID `event_id` when deviant events start at `base`
    pub open spec fn kind_at(base: u16, event_id: u16) -> Option<DeviantEventKind> {
        if event_id < base {
            None
        } else {
            let offset = event_id - base;
            if offset == MUTATOR_ANNOUNCED_OFFSET {
                Some(DeviantEventKind::MutatorAnnounced)
            } else if offset == MUTATOR_RETIRED_OFFSET {
                Some(DeviantEventKind::MutatorRetired)
            } else if offset == MUTATION_CMD_COMM_OFFSET {
                Some(DeviantEventKind::MutationCmdCommunicated)
            } else if offset == MUTATION_CLR_COMM_OFFSET {
                Some(DeviantEventKind::MutationClearCommunicated)
            } else if offset == MUTATION_TRIGGERED_OFFSET {
                Some(DeviantEventKind::MutationTriggered)
            } else if offset == MUTATION_INJECTED_OFFSET {
                Some(DeviantEventKind::MutationInjected)
            } else {
                None
            }
        }
    }

    /// The deviant kind of an event with the given code, if it is one
    pub fn from_base_event(base_event_id: u16, event_code: u16) -> (r: Option<DeviantEventKind>)
        ensures
            r == Self::kind_at(base_event_id, spec_event_id(event_code)),
    {
        let id = crate::event::event_id(event_code);
        if id >= base_event_id {
            let offset = id - base_event_id;
            if offset == MUTATOR_ANNOUNCED_OFFSET {
                Some(DeviantEventKind::MutatorAnnounced)
            } else if offset == MUTATOR_RETIRED_OFFSET {
                Some(DeviantEventKind::MutatorRetired)
            } else if offset == MUTATION_CMD_COMM_OFFSET {
                Some(DeviantEventKind::MutationCmdCommunicated)
            } else if offset == MUTATION_CLR_COMM_OFFSET {
                Some(DeviantEventKind::MutationClearCommunicated)
            } else if offset == MUTATION_TRIGGERED_OFFSET {
                Some(DeviantEventKind::MutationTriggered)
            } else if offset == MUTATION_INJECTED_OFFSET {
                Some(DeviantEventKind::MutationInjected)
            } else {
                None
            }
        } else {
            None
        }
    }
}

/// The four bytes of a 32-bit parameter, least significant first
pub open spec fn le_bytes_u32(p: u32) -> Seq<u8> {
    seq![
        (p % 256) as u8,
        ((p / 256) % 256) as u8,
        ((p / 65536) % 256) as u8,
        (p / 16777216) as u8,
    ]
}

/// The parameters laid out as little-endian bytes, one after the other
pub open spec fn param_bytes(params: Seq<u32>) -> Seq<u8>
    decreases params.len(),
{
    if params.len() == 0 {
        Seq::empty()
    } else {
        param_bytes(params.drop_last()) + le_bytes_u32(params.last())
    }
}

/// The unsigned number that bytes stand for, least significant first
pub open spec fn le_unsigned(b: Seq<u8>) -> int
    decreases b.len(),
{
    if b.len() == 0 {
        0
    } else {
        b[0] + 256 * le_unsigned(b.drop_first())
    }
}

/// The two's complement number that 16 bytes stand for, least significant first
pub open spec fn le_signed_128(b: Seq<u8>) -> int {
    if b[15] >= 128 {
        le_unsigned(b) - 0x1_0000_0000_0000_0000_0000_0000_0000_0000int
    } else {
        le_unsigned(b)
    }
}

/// The 32-bit number that 4 bytes stand for in the given byte order
pub open spec fn u32_of_bytes(b: Seq<u8>, e: Endianness) -> u32 {
    match e {
        Endianness::Little => (b[0] + 256 * b[1] + 65536 * b[2] + 16777216 * b[3]) as u32,
        Endianness::Big => (b[3] + 256 * b[2] + 65536 * b[1] + 16777216 * b[0]) as u32,
    }
}

/// The lowercase hexadecimal digit character of `d < 16`
pub open spec fn lower_hex_char(d: int) -> char {
    if d < 10 {
        ((d + 48) as u32) as char
    } else {
        ((d - 10 + 97) as u32) as char
    }
}

/// Two lowercase hexadecimal digits per byte
pub open spec fn hex_bytes(b: Seq<u8>) -> Seq<char>
    decreases b.len(),
{
    if b.len() == 0 {
        Seq::empty()
    } else {
        hex_bytes(b.drop_last()) + seq![
            lower_hex_char(b.last() as int / 16),
            lower_hex_char(b.last() as int % 16),
        ]
    }
}

/// The hyphenated lowercase text of the UUID with the given 16 bytes
pub open spec fn uuid_hyphenated(b: Seq<u8>) -> Seq<char> {
    hex_bytes(b.subrange(0, 4)) + "-"@ + hex_bytes(b.subrange(4, 6)) + "-"@ + hex_bytes(
        b.subrange(6, 8),
    ) + "-"@ + hex_bytes(b.subrange(8, 10)) + "-"@ + hex_bytes(b.subrange(10, 16))
}

/// `i128::from_le_bytes`: the two's complement number of the bytes, least significant first.
#[verifier::external_body]
fn i128_from_le_bytes(b: [u8; 16]) -> (r: i128)
    ensures
        r as int == le_signed_128(b@),
{
    i128::from_le_bytes(b)
}

/// `Uuid::from_slice` rendered by `to_string`: the hyphenated lowercase text of the UUID
/// made of the 16 bytes.
#[verifier::external_body]
fn uuid_text(b: &[u8]) -> (r: String)
    requires
        b@.len() == 16,
    ensures
        r@ == uuid_hyphenated(b@),
{
    match uuid::Uuid::from_slice(b) {
        Ok(u) => u.to_string(),
        Err(_) => String::new(),
    }
}

/// `ByteOrdered::read_u32` on a slice: the first four bytes as an unsigned 32-bit number in
/// the given byte order, or nothing when fewer than four bytes are left.
#[verifier::external_body]
fn read_u32_ordered(b: &[u8], e: Endianness) -> (r: Option<u32>)
    ensures
        b@.len() >= 4 ==> r == Some(u32_of_bytes(b@, e)),
        b@.len() < 4 ==> r is None,
{
    let order = match e {
        Endianness::Little => byteordered::Endianness::Little,
        Endianness::Big => byteordered::Endianness::Big,
    };
    match byteordered::ByteOrdered::new(b, order).read_u32() {
        Ok(v) => Some(v),
        Err(_) => None,
    }
}

/// A UUID (its 16 bytes) and its attribute value (the bytes as a little-endian two's
/// complement integer)
pub struct UuidAttr {
    pub bytes: Vec<u8>,
    pub value: AttrValue,
}

/// A parsed deviant event
pub struct DeviantEvent {
    pub kind: DeviantEventKind,
    pub mutator_id: UuidAttr,
    pub mutation_id: Option<UuidAttr>,
    pub mutation_success: Option<AttrValue>,
}

/// Parses deviant custom events: event IDs from the base on, with parameters in the
/// target's byte order
pub struct DeviantEventParser {
    pub endianness: Endianness,
    pub base_event_id: u16,
}

/// The error text for a base event ID that is not an event ID
pub open spec fn base_id_error(base: u16) -> Seq<char> {
    "The deviant custom event base ID "@ + hex_upper(base as nat) + " exceeds the max"@
}

/// The error text for an event whose parameter byte count does not fit its kind
pub open spec fn byte_count_error(code: u16, kind: DeviantEventKind, n: nat) -> Seq<char> {
    "The event "@ + hex_upper(code as nat) + " ("@ + kind.spec_modality_name()
        + ") has an incorrect number of parameter bytes ("@ + decimal(n) + "), expected "@
        + decimal(kind.spec_expected_parameter_byte_count())
}

/// The UUID made of 16 bytes, with its attribute value
pub open spec fn uuid_attr_of(u: UuidAttr, b: Seq<u8>) -> bool {
    u.bytes@ == b && u.value@ == int_attr(le_signed_128(b))
}

/// What parsing an event with the given code and parameters gives
pub open spec fn deviant_outcome(
    p: DeviantEventParser,
    code: u16,
    params: Seq<u32>,
    r: Result<Option<DeviantEvent>, Error>,
) -> bool {
    match DeviantEventKind::kind_at(p.base_event_id, spec_event_id(code)) {
        None => r is Ok && r->Ok_0 is None,
        Some(kind) => {
            let bytes = param_bytes(params);
            if bytes.len() != kind.spec_expected_parameter_byte_count() {
                r matches Err(Error::DeviantEvent(msg)) && msg@ == byte_count_error(
                    code,
                    kind,
                    bytes.len(),
                )
            } else {
                &&& r matches Ok(Some(d))
                &&& r->Ok_0->Some_0.kind == kind
                &&& uuid_attr_of(r->Ok_0->Some_0.mutator_id, bytes.subrange(0, 16))
                &&& match kind {
                    DeviantEventKind::MutatorAnnounced | DeviantEventKind::MutatorRetired => {
                        &&& r->Ok_0->Some_0.mutation_id is None
                        &&& r->Ok_0->Some_0.mutation_success is None
                    },
                    _ => {
                        &&& r->Ok_0->Some_0.mutation_id matches Some(m) && uuid_attr_of(
                            m,
                            bytes.subrange(16, 32),
                        )
                        &&& r->Ok_0->Some_0.mutation_success == Some(
                            AttrValue::Bool(u32_of_bytes(bytes.subrange(32, 36), p.endianness) != 0),
                        )
                    },
                }
            }
        },
    }
}

/// The little-endian bytes of the parameters, one after the other
fn param_bytes_of(params: &[u32]) -> (r: Vec<u8>)
    ensures
        r@ == param_bytes(params@),
{
    let mut r: Vec<u8> = Vec::new();
    let mut i: usize = 0;
    while i < params.len()
        invariant
            i <= params@.len(),
            r@ == param_bytes(params@.subrange(0, i as int)),
        decreases params@.len() - i,
    {
        let p = params[i];
        let ghost before = params@.subrange(0, i as int);
        r.push((p % 256) as u8);
        r.push(((p / 256) % 256) as u8);
        r.push(((p / 65536) % 256) as u8);
        r.push((p / 16777216) as u8);
        i = i + 1;
        assert(params@.subrange(0, i as int).drop_last() =~= before);
        assert(r@ =~= param_bytes(params@.subrange(0, i as int)));
    }
    assert(params@.subrange(0, params@.len() as int) =~= params@);
    r
}

/// The UUID made of the 16 bytes of `b` from `start` on
fn uuid_attr_at(b: &Vec<u8>, start: usize) -> (r: UuidAttr)
    requires
        start + 16 <= b@.len(),
    ensures
        uuid_attr_of(r, b@.subrange(start as int, start + 16)),
{
    let n = b.len();
    assert(start + 16 <= n);
    let a: [u8; 16] = [
        b[start],
        b[start + 1],
        b[start + 2],
        b[start + 3],
        b[start + 4],
        b[start + 5],
        b[start + 6],
        b[start + 7],
        b[start + 8],
        b[start + 9],
        b[start + 10],
        b[start + 11],
        b[start + 12],
        b[start + 13],
        b[start + 14],
        b[start + 15],
    ];
    assert(a@ =~= b@.subrange(start as int, start + 16));
    let v = i128_from_le_bytes(a);
    let mut bytes: Vec<u8> = Vec::new();
    let mut i: usize = 0;
    while i < 16
        invariant
            start + 16 <= b@.len(),
            n == b@.len(),
            i <= 16,
            bytes@ == b@.subrange(start as int, start + i),
        decreases 16 - i,
    {
        bytes.push(b[start + i]);
        i = i + 1;
        assert(bytes@ =~= b@.subrange(start as int, start + i));
    }
    UuidAttr { bytes, value: AttrValue::from_i128(v) }
}

impl DeviantEventParser {
    pub open spec fn wf(&self) -> bool {
        self.base_event_id <= MAX_EVENT_ID
    }

    /// A parser for deviant events from `base_event_id` on; the base must be an event ID
    pub fn new(endianness: Endianness, base_event_id: u16) -> (r: Result<DeviantEventParser, Error>)
        ensures
            base_event_id > MAX_EVENT_ID ==> (r matches Err(Error::DeviantEvent(msg)) && msg@
                == base_id_error(base_event_id)),
            base_event_id <= MAX_EVENT_ID ==> (r matches Ok(p) && p.wf() && p.endianness
                == endianness && p.base_event_id == base_event_id),
    {
        if base_event_id > MAX_EVENT_ID {
            proof {
                reveal_strlit("The deviant custom event base ID ");
                reveal_strlit(" exceeds the max");
            }
            let mut msg = String::from_str("The deviant custom event base ID ");
            msg.append(u64_to_hex_upper(base_event_id as u64).as_str());
            msg.append(" exceeds the max");
            Err(Error::DeviantEvent(msg))
        } else {
            Ok(DeviantEventParser { endianness, base_event_id })
        }
    }

    /// Parses the event with the given code and parameters when it is a deviant event
    pub fn parse(&mut self, event_code: u16, params: &[u32]) -> (r: Result<Option<DeviantEvent>, Error>)
        ensures
            *final(self) == *old(self),
            deviant_outcome(*old(self), event_code, params@, r),
    {
        let kind = match DeviantEventKind::from_base_event(self.base_event_id, event_code) {
            Some(k) => k,
            None => return Ok(None),
        };
        let bytes = param_bytes_of(params);
        if bytes.len() != kind.expected_parameter_byte_count() {
            proof {
                reveal_strlit("The event ");
                reveal_strlit(" (");
                reveal_strlit(") has an incorrect number of parameter bytes (");
                reveal_strlit("), expected ");
            }
            let mut msg = String::from_str("The event ");
            msg.append(u64_to_hex_upper(event_code as u64).as_str());
            msg.append(" (");
            msg.append(kind.to_modality_name());
            msg.append(") has an incorrect number of parameter bytes (");
            msg.append(u64_to_decimal(bytes.len() as u64).as_str());
            msg.append("), expected ");
            msg.append(u64_to_decimal(kind.expected_parameter_byte_count() as u64).as_str());
            return Err(Error::DeviantEvent(msg));
        }
        let mutator_id = uuid_attr_at(&bytes, 0);
        match kind {
            DeviantEventKind::MutatorAnnounced | DeviantEventKind::MutatorRetired => {
                Ok(Some(DeviantEvent { kind, mutator_id, mutation_id: None, mutation_success: None }))
            },
            _ => {
                let mutation_id = uuid_attr_at(&bytes, 16);
                let status = vec![bytes[32], bytes[33], bytes[34], bytes[35]];
                assert(status@ =~= bytes@.subrange(32, 36));
                let success = match read_u32_ordered(status.as_slice(), self.endianness) {
                    Some(v) => v != 0,
                    None => false,
                };
                Ok(
                    Some(
                        DeviantEvent {
                            kind,
                            mutator_id,
                            mutation_id: Some(mutation_id),
                            mutation_success: Some(AttrValue::Bool(success)),
                        },
                    ),
                )
            },
        }
    }
}

/// The hyphenated text of a UUID given by its bytes
pub fn uuid_attr_text(u: &UuidAttr) -> (r: String)
    requires
        u.bytes@.len() == 16,
    ensures
        r@ == uuid_hyphenated(u.bytes@),
{
    uuid_text(u.bytes.as_slice())
}

/// Deviant event IDs follow the base in a fixed order: mutator announced, mutator
/// retired, mutation command communicated, mutation clear communicated, mutation
/// triggered, mutation injected; IDs below the base or past the sixth are no deviant
/// events. Each kind goes by its reserved Modality name.
pub proof fn lemma_deviant_id_table(base: u16, id: u16)
    ensures
        id == base ==> DeviantEventKind::kind_at(base, id) == Some(DeviantEventKind::MutatorAnnounced),
        id == base + 1 ==> DeviantEventKind::kind_at(base, id) == Some(DeviantEventKind::MutatorRetired),
        id == base + 2 ==> DeviantEventKind::kind_at(base, id) == Some(
            DeviantEventKind::MutationCmdCommunicated,
        ),
        id == base + 3 ==> DeviantEventKind::kind_at(base, id) == Some(
            DeviantEventKind::MutationClearCommunicated,
        ),
        id == base + 4 ==> DeviantEventKind::kind_at(base, id) == Some(DeviantEventKind::MutationTriggered),
        id == base + 5 ==> DeviantEventKind::kind_at(base, id) == Some(DeviantEventKind::MutationInjected),
        id < base || id > base + 5 ==> DeviantEventKind::kind_at(base, id) is None,
        DeviantEventKind::MutatorAnnounced.spec_modality_name() == "modality.mutator.announced"@,
        DeviantEventKind::MutatorRetired.spec_modality_name() == "modality.mutator.retired"@,
        DeviantEventKind::MutationCmdCommunicated.spec_modality_name()
            == "modality.mutation.command_communicated"@,
        DeviantEventKind::MutationClearCommunicated.spec_modality_name()
            == "modality.mutation.clear_communicated"@,
        DeviantEventKind::MutationTriggered.spec_modality_name() == "modality.mutation.triggered"@,
        DeviantEventKind::MutationInjected.spec_modality_name() == "modality.mutation.injected"@,
{
}


/// Byte `j` (0 is the least significant) of a 32-bit parameter
pub open spec fn param_byte(p: u32, j: int) -> int {
    if j == 0 {
        p as int % 256
    } else if j == 1 {
        (p as int / 256) % 256
    } else if j == 2 {
        (p as int / 65536) % 256
    } else {
        p as int / 16777216
    }
}

proof fn lemma_param_bytes_index(params: Seq<u32>)
    ensures
        param_bytes(params).len() == 4 * params.len(),
        forall|i: int|
            0 <= i < 4 * params.len() ==> #[trigger] param_bytes(params)[i] as int == param_byte(
                params[i / 4],
                i % 4,
            ),
    decreases params.len(),
{
    if params.len() > 0 {
        let front = params.drop_last();
        lemma_param_bytes_index(front);
        let p = params.last();
        assert(p as int % 256 < 256);
        assert((p as int / 256) % 256 < 256);
        assert((p as int / 65536) % 256 < 256);
        assert(p as int / 16777216 < 256);
        assert forall|i: int| 0 <= i < 4 * params.len() implies #[trigger] param_bytes(params)[i] as int
            == param_byte(params[i / 4], i % 4) by {
            if i < 4 * front.len() {
                assert(params[i / 4] == front[i / 4]);
            } else {
                assert(i / 4 == params.len() - 1);
            }
        }
    }
}

proof fn lemma_status_nonzero(p: u32, e: Endianness)
    ensures
        (u32_of_bytes(le_bytes_u32(p), e) != 0) == (p != 0),
{
    let b0: int = p as int % 256;
    let b1: int = (p as int / 256) % 256;
    let b2: int = (p as int / 65536) % 256;
    let b3: int = p as int / 16777216;
    assert(p != 0 <==> (p % 256 != 0 || (p / 256) % 256 != 0 || (p / 65536) % 256 != 0 || p
        / 16777216 != 0)) by (bit_vector);
    assert(0 <= b3 < 256);
    assert(0 <= b0 < 256 && 0 <= b1 < 256 && 0 <= b2 < 256);
    let b = le_bytes_u32(p);
    assert(b[0] as int == b0 && b[1] as int == b1 && b[2] as int == b2 && b[3] as int == b3);
    assert(0 <= b0 + 256 * b1 + 65536 * b2 + 16777216 * b3 < 0x1_0000_0000) by (nonlinear_arith)
        requires
            0 <= b0 < 256,
            0 <= b1 < 256,
            0 <= b2 < 256,
            0 <= b3 < 256,
    ;
    assert(0 <= b3 + 256 * b2 + 65536 * b1 + 16777216 * b0 < 0x1_0000_0000) by (nonlinear_arith)
        requires
            0 <= b0 < 256,
            0 <= b1 < 256,
            0 <= b2 < 256,
            0 <= b3 < 256,
    ;
}

/// A deviant event is parsed exactly when its 32-bit parameters fill its kind's layout:
/// four for a mutator event (the first two IDs from the base), nine for a mutation event
/// (the next four). The mutator ID is made of the bytes of the first four parameters,
/// least significant byte first; a mutation event's mutation ID is made of those of the
/// next four, and the mutation succeeded exactly when the ninth parameter is not zero,
/// in either byte order. Events outside the six IDs from the base are not deviant events.
pub proof fn lemma_deviant_event_layout(
    p: DeviantEventParser,
    code: u16,
    params: Seq<u32>,
    r: Result<Option<DeviantEvent>, Error>,
)
    requires
        deviant_outcome(p, code, params, r),
    ensures
        spec_event_id(code) < p.base_event_id || spec_event_id(code) > p.base_event_id + 5
            ==> r == Ok::<Option<DeviantEvent>, Error>(None),
        p.base_event_id <= spec_event_id(code) <= p.base_event_id + 1 ==> ((r matches Ok(Some(
            _,
        ))) <==> params.len() == 4),
        p.base_event_id + 2 <= spec_event_id(code) <= p.base_event_id + 5 ==> ((r matches Ok(Some(
            _,
        ))) <==> params.len() == 9),
        p.base_event_id <= spec_event_id(code) <= p.base_event_id + 5 && !(r matches Ok(Some(_)))
            ==> r is Err,
        r matches Ok(Some(d)) ==> d.mutator_id.bytes@.len() == 16 && forall|i: int|
            0 <= i < 16 ==> #[trigger] d.mutator_id.bytes@[i] as int == param_byte(params[i / 4], i % 4),
        spec_event_id(code) <= p.base_event_id + 1 ==> (r matches Ok(Some(d)) ==> d.mutation_id is None
            && d.mutation_success is None),
        spec_event_id(code) >= p.base_event_id + 2 ==> (r matches Ok(Some(d)) ==> (d.mutation_id matches Some(
            m,
        ) && m.bytes@.len() == 16 && forall|i: int|
            0 <= i < 16 ==> #[trigger] m.bytes@[i] as int == param_byte(params[4 + i / 4], i % 4))),
        spec_event_id(code) >= p.base_event_id + 2 ==> (r matches Ok(Some(d)) ==> d.mutation_success
            == Some(AttrValue::Bool(params[8] != 0))),
{
    lemma_param_bytes_index(params);
    let bytes = param_bytes(params);
    let base = p.base_event_id;
    let id = spec_event_id(code);
    if base <= id && id <= base + 5 {
        if let Ok(Some(d)) = r {
            assert forall|i: int| 0 <= i < 16 implies #[trigger] d.mutator_id.bytes@[i] as int
                == param_byte(params[i / 4], i % 4) by {
                assert(d.mutator_id.bytes@[i] == bytes[i]);
            }
            if id >= base + 2 {
                let m = d.mutation_id->Some_0;
                assert forall|i: int| 0 <= i < 16 implies #[trigger] m.bytes@[i] as int == param_byte(
                    params[4 + i / 4],
                    i % 4,
                ) by {
                    assert(m.bytes@[i] == bytes[16 + i]);
                    assert((16 + i) / 4 == 4 + i / 4);
                    assert((16 + i) % 4 == i % 4);
                }
                let st = bytes.subrange(32, 36);
                let q = params[8];
                assert(st =~= le_bytes_u32(q)) by {
                    assert(q as int % 256 < 256);
                    assert((q as int / 256) % 256 < 256);
                    assert((q as int / 65536) % 256 < 256);
                    assert(q as int / 16777216 < 256);
                    assert(bytes[32] as int == param_byte(q, 0));
                    assert(bytes[33] as int == param_byte(q, 1));
                    assert(bytes[34] as int == param_byte(q, 2));
                    assert(bytes[35] as int == param_byte(q, 3));
                }
                lemma_status_nonzero(q, p.endianness);
            }
        }
    }
}


/// The signed 128-bit number whose 32-bit limbs are the four parameters, least
/// significant first
pub open spec fn limbs_signed_128(p0: u32, p1: u32, p2: u32, p3: u32) -> int {
    let n = p0 + 0x1_0000_0000int * p1 + 0x1_0000_0000_0000_0000int * p2
        + 0x1_0000_0000_0000_0000_0000_0000int * p3;
    if p3 >= 0x8000_0000 {
        n - 0x1_0000_0000_0000_0000_0000_0000_0000_0000int
    } else {
        n
    }
}

proof fn lemma_le_bytes_u32_value(p: u32)
    ensures
        le_bytes_u32(p)[0] as int == p as int % 256,
        le_bytes_u32(p)[1] as int == (p as int / 256) % 256,
        le_bytes_u32(p)[2] as int == (p as int / 65536) % 256,
        le_bytes_u32(p)[3] as int == p as int / 16777216,
        p as int == le_bytes_u32(p)[0] + 256 * le_bytes_u32(p)[1] + 65536 * le_bytes_u32(p)[2]
            + 16777216 * le_bytes_u32(p)[3],
{
    assert(p as int / 16777216 < 256);
    let q: u64 = p as u64;
    assert(q == (q % 256) + 256 * ((q / 256) % 256) + 65536 * ((q / 65536) % 256) + 16777216 * (q
        / 16777216)) by (bit_vector)
        requires
            q < 0x1_0000_0000,
    ;
}

proof fn lemma_le_unsigned_prepend4(a: Seq<u8>, b: Seq<u8>)
    requires
        a.len() == 4,
    ensures
        le_unsigned(a + b) == a[0] + 256 * a[1] + 65536 * a[2] + 16777216 * a[3] + 0x1_0000_0000int
            * le_unsigned(b),
{
    let c0 = a + b;
    let c1 = c0.drop_first();
    let c2 = c1.drop_first();
    let c3 = c2.drop_first();
    let c4 = c3.drop_first();
    assert(c4 =~= b);
    let l = le_unsigned(b);
    assert(le_unsigned(c3) == a[3] + 256 * l);
    assert(le_unsigned(c2) == a[2] + 256 * le_unsigned(c3));
    assert(le_unsigned(c1) == a[1] + 256 * le_unsigned(c2));
    assert(le_unsigned(c0) == a[0] + 256 * le_unsigned(c1));
    let x0: int = a[0] as int;
    let x1: int = a[1] as int;
    let x2: int = a[2] as int;
    let x3: int = a[3] as int;
    assert(x0 + 256 * (x1 + 256 * (x2 + 256 * (x3 + 256 * l))) == x0 + 256 * x1 + 65536 * x2
        + 16777216 * x3 + 0x1_0000_0000int * l) by (nonlinear_arith);
}

proof fn lemma_uuid_limbs(params: Seq<u32>, start: int)
    requires
        0 <= start,
        start + 4 <= params.len(),
    ensures
        le_signed_128(param_bytes(params).subrange(4 * start, 4 * start + 16)) == limbs_signed_128(
            params[start],
            params[start + 1],
            params[start + 2],
            params[start + 3],
        ),
{
    lemma_param_bytes_index(params);
    let s = param_bytes(params).subrange(4 * start, 4 * start + 16);
    let (p0, p1, p2, p3) = (params[start], params[start + 1], params[start + 2], params[start + 3]);
    lemma_le_bytes_u32_value(p0);
    lemma_le_bytes_u32_value(p1);
    lemma_le_bytes_u32_value(p2);
    lemma_le_bytes_u32_value(p3);
    let (l0, l1, l2, l3) = (le_bytes_u32(p0), le_bytes_u32(p1), le_bytes_u32(p2), le_bytes_u32(p3));
    let t = l0 + (l1 + (l2 + (l3 + Seq::<u8>::empty())));
    assert forall|i: int| 0 <= i < 16 implies #[trigger] s[i] == t[i] by {
        let k = 4 * start + i;
        assert(s[i] == param_bytes(params)[k]);
        assert(k / 4 == start + i / 4);
        assert(k % 4 == i % 4);
        if i < 4 {
            assert(t[i] == l0[i]);
        } else if i < 8 {
            assert(t[i] == l1[i - 4]);
        } else if i < 12 {
            assert(t[i] == l2[i - 8]);
        } else {
            assert(t[i] == l3[i - 12]);
        }
    }
    assert(s =~= t);
    lemma_le_unsigned_prepend4(l3, Seq::<u8>::empty());
    lemma_le_unsigned_prepend4(l2, l3 + Seq::<u8>::empty());
    lemma_le_unsigned_prepend4(l1, l2 + (l3 + Seq::<u8>::empty()));
    lemma_le_unsigned_prepend4(l0, l1 + (l2 + (l3 + Seq::<u8>::empty())));
    assert(le_unsigned(Seq::<u8>::empty()) == 0);
    let (v0, v1, v2, v3) = (p0 as int, p1 as int, p2 as int, p3 as int);
    assert(v0 + 0x1_0000_0000int * (v1 + 0x1_0000_0000int * (v2 + 0x1_0000_0000int * v3)) == v0
        + 0x1_0000_0000int * v1 + 0x1_0000_0000_0000_0000int * v2
        + 0x1_0000_0000_0000_0000_0000_0000int * v3) by (nonlinear_arith);
    assert(s[15] == l3[3]);
    assert((p3 / 16777216 >= 128) == (p3 >= 0x8000_0000)) by (bit_vector);
}

/// The mutator ID of a parsed deviant event, and the mutation ID of a parsed mutation
/// event, are each the signed 128-bit number made of four 32-bit parameters, least
/// significant first: the first four for the mutator, the next four for the mutation.
pub proof fn lemma_deviant_id_values(
    p: DeviantEventParser,
    code: u16,
    params: Seq<u32>,
    r: Result<Option<DeviantEvent>, Error>,
)
    requires
        deviant_outcome(p, code, params, r),
    ensures
        r matches Ok(Some(d)) ==> d.mutator_id.value@ == int_attr(
            limbs_signed_128(params[0], params[1], params[2], params[3]),
        ),
        r matches Ok(Some(d)) ==> (d.mutation_id matches Some(m) ==> m.value@ == int_attr(
            limbs_signed_128(params[4], params[5], params[6], params[7]),
        )),
{
    lemma_param_bytes_index(params);
    if let Ok(Some(d)) = r {
        lemma_uuid_limbs(params, 0);
        if d.mutation_id is Some {
            lemma_uuid_limbs(params, 4);
        }
    }
}

} // verus!
