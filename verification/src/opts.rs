//! User-event naming and attribute-key options, interaction modes and ignored object classes.

use crate::order::{
    compare_text, compare_texts, lemma_pair_order, lemma_text_order, pair_lt,
    strict_total_order, text_lt, texts_lt, SortedSet, TotallyOrdered,
};
use crate::text::{chars_of, split, split_chars, string_from_chars, trim, trim_chars};
use trace_recorder_parser::types::ObjectClass as ParserClass;
use vstd::prelude::*;
use vstd::string::*;

verus! {

/// A trace recorder USER_EVENT channel/format-string to Modality event name
#[derive(Clone, Debug, PartialEq, Eq)]
pub struct RenameMapItem {
    pub input: String,
    pub event_name: String,
}

/// The error text for a rename map item that is not `<input-name>:<event-name>`
pub open spec fn rename_map_item_error(s: Seq<char>) -> Seq<char> {
    "Invalid rename map item '"@ + s + "', use the supported format '<input-name>:<event-name>'"@
}

/// The error text for an attribute key item that is not
/// `<channel>:<format-string>:<attr-key>[,<attr-key>]`
pub open spec fn fmt_arg_item_error(s: Seq<char>) -> Seq<char> {
    "Invalid format string argument attribute key item '"@ + s
        + "', use the supported format '<channel>:<format-string>:<attr-key>[,<attr-key>]'"@
}

/// Some piece is empty
pub open spec fn any_empty(pieces: Seq<Seq<char>>) -> bool {
    exists|i: int| 0 <= i < pieces.len() && #[trigger] pieces[i].len() == 0
}

fn any_piece_empty(pieces: &Vec<Vec<char>>) -> (r: bool)
    ensures
        r == any_empty(pieces@.map_values(|p: Vec<char>| p@)),
{
    let ghost pv = pieces@.map_values(|p: Vec<char>| p@);
    let mut i: usize = 0;
    while i < pieces.len()
        invariant
            i <= pieces@.len(),
            pv == pieces@.map_values(|p: Vec<char>| p@),
            forall|j: int| 0 <= j < i ==> #[trigger] pv[j].len() > 0,
        decreases pieces@.len() - i,
    {
        if pieces[i].len() == 0 {
            assert(pv[i as int].len() == 0);
            return true;
        }
        i = i + 1;
    }
    false
}

impl RenameMapItem {
    /// Parses `<input-name>:<event-name>`, where neither part is empty
    pub fn from_str(s: &str) -> (r: Result<RenameMapItem, String>)
        ensures
            ({
                let t = split(s@, ':');
                match r {
                    Ok(item) => t.len() == 2 && !any_empty(t) && item.input@ == t[0]
                        && item.event_name@ == t[1],
                    Err(e) => !(t.len() == 2 && !any_empty(t)) && e@ == rename_map_item_error(s@),
                }
            }),
    {
        let cs = chars_of(s);
        let tokens = split_chars(cs.as_slice(), ':');
        let ghost t = split(s@, ':');
        assert(tokens@.map_values(|p: Vec<char>| p@) =~= t);
        if tokens.len() != 2 || any_piece_empty(&tokens) {
            let e = String::from_str("Invalid rename map item '").concat(s).concat(
                "', use the supported format '<input-name>:<event-name>'",
            );
            return Err(e);
        }
        let input = string_from_chars(tokens[0].as_slice());
        let event_name = string_from_chars(tokens[1].as_slice());
        assert(tokens@[0]@ == t[0] && tokens@[1]@ == t[1]);
        Ok(RenameMapItem { input, event_name })
    }
}

impl TotallyOrdered for RenameMapItem {
    type V = (Seq<char>, Seq<char>);

    open spec fn order_view(&self) -> (Seq<char>, Seq<char>) {
        (self.input@, self.event_name@)
    }

    open spec fn view_lt(a: (Seq<char>, Seq<char>), b: (Seq<char>, Seq<char>)) -> bool {
        pair_lt(
            a,
            b,
            |x: Seq<char>, y: Seq<char>| text_lt(x, y),
            |x: Seq<char>, y: Seq<char>| text_lt(x, y),
        )
    }

    proof fn lemma_view_order() {
        lemma_text_order();
        let t = |x: Seq<char>, y: Seq<char>| text_lt(x, y);
        lemma_pair_order(t, t);
        assert((|a: (Seq<char>, Seq<char>), b: (Seq<char>, Seq<char>)| Self::view_lt(a, b)) =~= (|
            a: (Seq<char>, Seq<char>),
            b: (Seq<char>, Seq<char>),
        | pair_lt(a, b, t, t)));
    }

    fn compare_to(&self, other: &Self) -> (r: i8) {
        proof {
            lemma_text_order();
        }
        let a = chars_of(self.input.as_str());
        let b = chars_of(other.input.as_str());
        let c = compare_text(a.as_slice(), b.as_slice());
        if c != 0 {
            return c;
        }
        let a = chars_of(self.event_name.as_str());
        let b = chars_of(other.event_name.as_str());
        compare_text(a.as_slice(), b.as_slice())
    }
}

/// The event name of the first item, in order, whose input is `key`
pub open spec fn first_rename(items: Seq<(Seq<char>, Seq<char>)>, key: Seq<char>) -> Option<
    Seq<char>,
>
    decreases items.len(),
{
    if items.len() == 0 {
        None
    } else if items[0].0 == key {
        Some(items[0].1)
    } else {
        first_rename(items.drop_first(), key)
    }
}

/// A map of trace recorder USER_EVENT channels/format-strings to Modality event names.
/// The items are kept without duplicates in increasing (input, event name) order.
pub struct RenameMap {
    items: SortedSet<RenameMapItem>,
}

impl RenameMap {
    pub open spec fn wf(&self) -> bool {
        self.items().wf()
    }

    pub closed spec fn items(&self) -> SortedSet<RenameMapItem> {
        self.items
    }

    /// The (input, event name) pairs in increasing order
    pub open spec fn view(&self) -> Seq<(Seq<char>, Seq<char>)> {
        self.items().view()
    }

    /// An empty map
    pub fn new() -> (r: RenameMap)
        ensures
            r.wf(),
            r@.len() == 0,
    {
        RenameMap { items: SortedSet::new() }
    }

    /// A map holding the given items
    pub fn from_items(items: Vec<RenameMapItem>) -> (r: RenameMap)
        ensures
            r.wf(),
            r@.to_set() == items@.map_values(|i: RenameMapItem| i.order_view()).to_set(),
    {
        RenameMap { items: SortedSet::from_vec(items) }
    }

    /// The items in increasing order
    pub fn as_slice(&self) -> (r: &[RenameMapItem])
        ensures
            r@ == self.items().items(),
    {
        self.items.as_slice()
    }

    /// The event name for the given channel or formatted string
    pub fn get(&self, key: &str) -> (r: Option<&str>)
        requires
            self.wf(),
        ensures
            match r {
                Some(name) => first_rename(self@, key@) == Some(name@),
                None => first_rename(self@, key@) is None,
            },
    {
        let items = self.items.as_slice();
        let ghost v = self@;
        let k = chars_of(key);
        let mut i: usize = 0;
        assert(v.subrange(0, v.len() as int) =~= v);
        assert(v.len() == items@.len());
        while i < items.len()
            invariant
                i <= items@.len(),
                items@ == self.items().items(),
                v == self@,
                k@ == key@,
                v == crate::order::order_views(items@),
                first_rename(v, key@) == first_rename(v.subrange(i as int, v.len() as int), key@),
            decreases items@.len() - i,
        {
            let ghost rest = v.subrange(i as int, v.len() as int);
            proof {
                assert(v.len() == items@.len());
                assert(rest.len() > 0);
                assert(rest[0] == v[i as int]);
                assert(v[i as int] == items@[i as int].order_view());
            }
            let cand = chars_of(items[i].input.as_str());
            assert(items@[i as int].order_view() == (items@[i as int].input@, items@[i as int].event_name@));
            assert(cand@ == items@[i as int].input@);
            if compare_text(cand.as_slice(), k.as_slice()) == 0 {
                assert(cand@ == k@);
                assert(k@ == key@);
                assert(rest[0].0 == key@);
                assert(first_rename(rest, key@) == Some(rest[0].1));
                return Some(items[i].event_name.as_str());
            }
            assert(rest[0].0 != key@);
            assert(first_rename(rest, key@) == first_rename(rest.drop_first(), key@));
            assert(rest.drop_first() =~= v.subrange(i + 1, v.len() as int));
            i = i + 1;
        }
        None
    }
}

/// Among the items of a rename map with the given input, `get` answers with the least
/// event name.
pub proof fn lemma_rename_get_is_least(m: RenameMap, key: Seq<char>, name: Seq<char>)
    requires
        m.wf(),
        first_rename(m@, key) == Some(name),
    ensures
        m@.contains((key, name)),
        forall|n: Seq<char>| #[trigger] m@.contains((key, n)) && n != name ==> text_lt(name, n),
{
    lemma_text_order();
    lemma_first_rename(m@, key, name);
    let i = choose|i: int| 0 <= i < m@.len() && m@[i] == (key, name) && forall|j: int|
        0 <= j < i ==> m@[j].0 != key;
    assert(m@[i] == (key, name));
    assert forall|n: Seq<char>| #[trigger] m@.contains((key, n)) && n != name implies text_lt(name, n) by {
        let j = choose|j: int| 0 <= j < m@.len() && m@[j] == (key, n);
        assert(j >= i);
        assert(j != i);
        let s = m.items().items();
        assert(RenameMapItem::view_lt(s[i].order_view(), s[j].order_view()));
    }
}

proof fn lemma_first_rename(items: Seq<(Seq<char>, Seq<char>)>, key: Seq<char>, name: Seq<char>)
    requires
        first_rename(items, key) == Some(name),
    ensures
        exists|i: int| 0 <= i < items.len() && items[i] == (key, name) && forall|j: int|
            0 <= j < i ==> items[j].0 != key,
    decreases items.len(),
{
    if items[0].0 == key {
        assert(items[0] == (key, name));
    } else {
        lemma_first_rename(items.drop_first(), key, name);
        let i = choose|i: int| 0 <= i < items.drop_first().len() && items.drop_first()[i] == (key, name)
            && forall|j: int| 0 <= j < i ==> items.drop_first()[j].0 != key;
        assert(items[i + 1] == (key, name));
        assert forall|j: int| 0 <= j < i + 1 implies items[j].0 != key by {
            if j > 0 {
                assert(items[j] == items.drop_first()[j - 1]);
            }
        }
    }
}

/// A trace recorder USER_EVENT channel and format string match pair and
/// Modality event attribute keys
#[derive(Clone, Debug, PartialEq, Eq)]
pub struct FormatArgAttributeKeysItem {
    pub channel: String,
    pub format_string: String,
    pub arg_attr_keys: Vec<String>,
}

/// The texts of a list of strings
pub open spec fn texts_of(v: Seq<String>) -> Seq<Seq<char>> {
    v.map_values(|s: String| s@)
}

impl FormatArgAttributeKeysItem {
    /// Parses `<channel>:<format-string>:<attr-key>[,<attr-key>]`: three non-empty parts
    /// separated by `:`, the last a `,`-separated list of keys, each trimmed of surrounding
    /// whitespace and non-empty
    pub fn from_str(s: &str) -> (r: Result<FormatArgAttributeKeysItem, String>)
        ensures
            ({
                let t = split(s@, ':');
                let ok_shape = t.len() == 3 && !any_empty(t);
                let keys = split(t[2], ',').map_values(|k: Seq<char>| trim(k));
                match r {
                    Ok(item) => ok_shape && !any_empty(keys) && item.channel@ == t[0]
                        && item.format_string@ == t[1] && texts_of(item.arg_attr_keys@) == keys,
                    Err(e) => !(ok_shape && !any_empty(keys)) && e@ == fmt_arg_item_error(s@),
                }
            }),
    {
        let cs = chars_of(s);
        let tokens = split_chars(cs.as_slice(), ':');
        let ghost t = split(s@, ':');
        assert(tokens@.map_values(|p: Vec<char>| p@) =~= t);
        if tokens.len() != 3 || any_piece_empty(&tokens) {
            return Err(fmt_arg_error(s));
        }
        assert(tokens@[2]@ == t[2]);
        let raw_keys = split_chars(tokens[2].as_slice(), ',');
        let ghost raw = split(t[2], ',');
        let ghost keys = raw.map_values(|k: Seq<char>| trim(k));
        let mut trimmed: Vec<Vec<char>> = Vec::new();
        let mut i: usize = 0;
        while i < raw_keys.len()
            invariant
                i <= raw_keys@.len(),
                raw_keys@.len() == raw.len(),
                forall|j: int| 0 <= j < raw_keys@.len() ==> #[trigger] raw_keys@[j]@ == raw[j],
                trimmed@.len() == i,
                forall|j: int| 0 <= j < i ==> #[trigger] trimmed@[j]@ == trim(raw[j]),
            decreases raw_keys@.len() - i,
        {
            let k = trim_chars(raw_keys[i].as_slice());
            trimmed.push(k);
            i = i + 1;
        }
        assert(trimmed@.map_values(|p: Vec<char>| p@) =~= keys);
        if any_piece_empty(&trimmed) {
            return Err(fmt_arg_error(s));
        }
        let mut arg_attr_keys: Vec<String> = Vec::new();
        let mut j: usize = 0;
        while j < trimmed.len()
            invariant
                j <= trimmed@.len(),
                trimmed@.len() == keys.len(),
                forall|q: int| 0 <= q < trimmed@.len() ==> #[trigger] trimmed@[q]@ == keys[q],
                texts_of(arg_attr_keys@) == keys.subrange(0, j as int),
            decreases trimmed@.len() - j,
        {
            let k = string_from_chars(trimmed[j].as_slice());
            let ghost before = arg_attr_keys@;
            arg_attr_keys.push(k);
            assert(texts_of(before.push(k)) =~= texts_of(before).push(k@));
            j = j + 1;
            assert(texts_of(arg_attr_keys@) =~= keys.subrange(0, j as int));
        }
        assert(keys.subrange(0, keys.len() as int) =~= keys);
        let channel = string_from_chars(tokens[0].as_slice());
        let format_string = string_from_chars(tokens[1].as_slice());
        assert(tokens@[0]@ == t[0] && tokens@[1]@ == t[1]);
        Ok(FormatArgAttributeKeysItem { channel, format_string, arg_attr_keys })
    }
}

fn fmt_arg_error(s: &str) -> (e: String)
    ensures
        e@ == fmt_arg_item_error(s@),
{
    String::from_str("Invalid format string argument attribute key item '").concat(s).concat(
        "', use the supported format '<channel>:<format-string>:<attr-key>[,<attr-key>]'",
    )
}

/// (channel, format string) pairs ordered as text pairs
pub open spec fn fmt_key_lt(a: (Seq<char>, Seq<char>), b: (Seq<char>, Seq<char>)) -> bool {
    pair_lt(a, b, |x: Seq<char>, y: Seq<char>| text_lt(x, y), |x: Seq<char>, y: Seq<char>| text_lt(x, y))
}

impl TotallyOrdered for FormatArgAttributeKeysItem {
    type V = ((Seq<char>, Seq<char>), Seq<Seq<char>>);

    open spec fn order_view(&self) -> ((Seq<char>, Seq<char>), Seq<Seq<char>>) {
        ((self.channel@, self.format_string@), texts_of(self.arg_attr_keys@))
    }

    open spec fn view_lt(
        a: ((Seq<char>, Seq<char>), Seq<Seq<char>>),
        b: ((Seq<char>, Seq<char>), Seq<Seq<char>>),
    ) -> bool {
        pair_lt(
            a,
            b,
            |x: (Seq<char>, Seq<char>), y: (Seq<char>, Seq<char>)| fmt_key_lt(x, y),
            |x: Seq<Seq<char>>, y: Seq<Seq<char>>| texts_lt(x, y),
        )
    }

    proof fn lemma_view_order() {
        lemma_text_order();
        let t = |x: Seq<char>, y: Seq<char>| text_lt(x, y);
        lemma_pair_order(t, t);
        let k = |x: (Seq<char>, Seq<char>), y: (Seq<char>, Seq<char>)| fmt_key_lt(x, y);
        assert(k =~= (|x: (Seq<char>, Seq<char>), y: (Seq<char>, Seq<char>)| pair_lt(x, y, t, t)));
        let ts = |x: Seq<Seq<char>>, y: Seq<Seq<char>>| texts_lt(x, y);
        lemma_pair_order(k, ts);
        assert((|
            a: ((Seq<char>, Seq<char>), Seq<Seq<char>>),
            b: ((Seq<char>, Seq<char>), Seq<Seq<char>>),
        | Self::view_lt(a, b)) =~= (|
            a: ((Seq<char>, Seq<char>), Seq<Seq<char>>),
            b: ((Seq<char>, Seq<char>), Seq<Seq<char>>),
        | pair_lt(a, b, k, ts)));
    }

    fn compare_to(&self, other: &Self) -> (r: i8) {
        proof {
            lemma_text_order();
        }
        let a = chars_of(self.channel.as_str());
        let b = chars_of(other.channel.as_str());
        let c = compare_text(a.as_slice(), b.as_slice());
        if c != 0 {
            return c;
        }
        let a = chars_of(self.format_string.as_str());
        let b = chars_of(other.format_string.as_str());
        let c = compare_text(a.as_slice(), b.as_slice());
        if c != 0 {
            return c;
        }
        compare_texts(self.arg_attr_keys.as_slice(), other.arg_attr_keys.as_slice())
    }
}

/// The attribute keys of the first item, in order, with the given channel and format string
pub open spec fn first_arg_keys(
    items: Seq<((Seq<char>, Seq<char>), Seq<Seq<char>>)>,
    channel: Seq<char>,
    format_string: Seq<char>,
) -> Option<Seq<Seq<char>>>
    decreases items.len(),
{
    if items.len() == 0 {
        None
    } else if items[0].0 == (channel, format_string) {
        Some(items[0].1)
    } else {
        first_arg_keys(items.drop_first(), channel, format_string)
    }
}

/// A set of trace recorder USER_EVENT channel and format string match pairs and
/// Modality event attribute keys, kept without duplicates in increasing order
pub struct FormatArgAttributeKeysSet {
    items: SortedSet<FormatArgAttributeKeysItem>,
}

impl FormatArgAttributeKeysSet {
    pub open spec fn wf(&self) -> bool {
        self.items().wf()
    }

    pub closed spec fn items(&self) -> SortedSet<FormatArgAttributeKeysItem> {
        self.items
    }

    pub open spec fn view(&self) -> Seq<((Seq<char>, Seq<char>), Seq<Seq<char>>)> {
        self.items().view()
    }

    pub fn new() -> (r: FormatArgAttributeKeysSet)
        ensures
            r.wf(),
            r@.len() == 0,
    {
        FormatArgAttributeKeysSet { items: SortedSet::new() }
    }

    pub fn from_items(items: Vec<FormatArgAttributeKeysItem>) -> (r: FormatArgAttributeKeysSet)
        ensures
            r.wf(),
            r@.to_set() == items@.map_values(|i: FormatArgAttributeKeysItem| i.order_view()).to_set(),
    {
        FormatArgAttributeKeysSet { items: SortedSet::from_vec(items) }
    }

    pub fn as_slice(&self) -> (r: &[FormatArgAttributeKeysItem])
        ensures
            r@ == self.items().items(),
    {
        self.items.as_slice()
    }

    /// The custom attribute keys for user events with this channel and format string
    pub fn arg_attr_keys(&self, channel: &str, format_string: &str) -> (r: Option<&[String]>)
        requires
            self.wf(),
        ensures
            match r {
                Some(keys) => first_arg_keys(self@, channel@, format_string@) == Some(
                    texts_of(keys@),
                ),
                None => first_arg_keys(self@, channel@, format_string@) is None,
            },
    {
        let items = self.items.as_slice();
        let ghost v = self@;
        let ch = chars_of(channel);
        let fs = chars_of(format_string);
        let mut i: usize = 0;
        assert(v.subrange(0, v.len() as int) =~= v);
        assert(v.len() == items@.len());
        while i < items.len()
            invariant
                i <= items@.len(),
                items@ == self.items().items(),
                v == self@,
                ch@ == channel@,
                fs@ == format_string@,
                v == crate::order::order_views(items@),
                first_arg_keys(v, channel@, format_string@) == first_arg_keys(
                    v.subrange(i as int, v.len() as int),
                    channel@,
                    format_string@,
                ),
            decreases items@.len() - i,
        {
            let ghost rest = v.subrange(i as int, v.len() as int);
            proof {
                assert(v.len() == items@.len());
                assert(rest.len() > 0);
                assert(rest[0] == v[i as int]);
                assert(v[i as int] == items@[i as int].order_view());
            }
            let c = chars_of(items[i].channel.as_str());
            let f = chars_of(items[i].format_string.as_str());
            if compare_text(c.as_slice(), ch.as_slice()) == 0 && compare_text(
                f.as_slice(),
                fs.as_slice(),
            ) == 0 {
                assert(rest[0].0 == (channel@, format_string@));
                assert(first_arg_keys(rest, channel@, format_string@) == Some(rest[0].1));
                return Some(items[i].arg_attr_keys.as_slice());
            }
            assert(rest[0].0 != (channel@, format_string@));
            assert(first_arg_keys(rest, channel@, format_string@) == first_arg_keys(rest.drop_first(), channel@, format_string@));
            assert(rest.drop_first() =~= v.subrange(i + 1, v.len() as int));
            i = i + 1;
        }
        None
    }
}

/// How interactions between contexts are drawn
#[derive(Copy, Clone, PartialEq, Eq, Structural, Debug)]
pub enum InteractionMode {
    FullyLinearized,
    Ipc,
}

impl InteractionMode {
    /// The mode's configuration text
    pub open spec fn spec_name(self) -> Seq<char> {
        match self {
            InteractionMode::FullyLinearized => "fully-linearized"@,
            InteractionMode::Ipc => "ipc"@,
        }
    }

    /// The default mode
    pub fn default_mode() -> (r: InteractionMode)
        ensures
            r == InteractionMode::FullyLinearized,
    {
        InteractionMode::FullyLinearized
    }

    /// The mode's configuration text (`fully-linearized` or `ipc`)
    pub fn name(&self) -> (r: String)
        ensures
            r@ == self.spec_name(),
    {
        match self {
            InteractionMode::FullyLinearized => String::from_str("fully-linearized"),
            InteractionMode::Ipc => String::from_str("ipc"),
        }
    }

    /// The mode named by an already trimmed and lowercased text
    pub fn from_lowercase_name(name: &str, input: &str) -> (r: Result<InteractionMode, String>)
        ensures
            match r {
                Ok(m) => m.spec_name() == name@,
                Err(e) => name@ != "fully-linearized"@ && name@ != "ipc"@ && e@
                    == "Invalid interaction mode '"@ + input@ + "'"@,
            },
    {
        let n = chars_of(name);
        let fl = chars_of("fully-linearized");
        let ipc = chars_of("ipc");
        if compare_text(n.as_slice(), fl.as_slice()) == 0 {
            Ok(InteractionMode::FullyLinearized)
        } else if compare_text(n.as_slice(), ipc.as_slice()) == 0 {
            Ok(InteractionMode::Ipc)
        } else {
            Err(String::from_str("Invalid interaction mode '").concat(input).concat("'"))
        }
    }

    /// Parses `fully-linearized` or `ipc`, ignoring surrounding whitespace and case
    pub fn from_str(s: &str) -> (r: Result<InteractionMode, String>)
        ensures
            ({
                let n = crate::text::lowercase(trim(s@));
                match r {
                    Ok(m) => m.spec_name() == n,
                    Err(e) => n != "fully-linearized"@ && n != "ipc"@ && e@
                        == "Invalid interaction mode '"@ + s@ + "'"@,
                }
            }),
    {
        let cs = chars_of(s);
        let t = trim_chars(cs.as_slice());
        let ts = string_from_chars(t.as_slice());
        let lower = crate::text::str_to_lowercase(ts.as_str());
        InteractionMode::from_lowercase_name(lower.as_str(), s)
    }
}

/// Kernel object classes
#[derive(Copy, Clone, PartialEq, Eq, Structural, Debug, Hash)]
pub enum ObjectClass {
    Queue,
    Semaphore,
    Mutex,
    Task,
    Isr,
    Timer,
    EventGroup,
    StreamBuffer,
    MessageBuffer,
    StateMachine,
}

impl ObjectClass {
    /// The class's position in the declaration, which orders the classes
    pub open spec fn spec_index(self) -> int {
        match self {
            ObjectClass::Queue => 0,
            ObjectClass::Semaphore => 1,
            ObjectClass::Mutex => 2,
            ObjectClass::Task => 3,
            ObjectClass::Isr => 4,
            ObjectClass::Timer => 5,
            ObjectClass::EventGroup => 6,
            ObjectClass::StreamBuffer => 7,
            ObjectClass::MessageBuffer => 8,
            ObjectClass::StateMachine => 9,
        }
    }

    /// The class's display name
    pub open spec fn spec_name(self) -> Seq<char> {
        match self {
            ObjectClass::Queue => "Queue"@,
            ObjectClass::Semaphore => "Semaphore"@,
            ObjectClass::Mutex => "Mutex"@,
            ObjectClass::Task => "Task"@,
            ObjectClass::Isr => "ISR"@,
            ObjectClass::Timer => "Timer"@,
            ObjectClass::EventGroup => "EventGroup"@,
            ObjectClass::StreamBuffer => "StreamBuffer"@,
            ObjectClass::MessageBuffer => "MessageBuffer"@,
            ObjectClass::StateMachine => "StateMachine"@,
        }
    }

    pub fn index(&self) -> (r: u8)
        ensures
            r as int == self.spec_index(),
    {
        match self {
            ObjectClass::Queue => 0,
            ObjectClass::Semaphore => 1,
            ObjectClass::Mutex => 2,
            ObjectClass::Task => 3,
            ObjectClass::Isr => 4,
            ObjectClass::Timer => 5,
            ObjectClass::EventGroup => 6,
            ObjectClass::StreamBuffer => 7,
            ObjectClass::MessageBuffer => 8,
            ObjectClass::StateMachine => 9,
        }
    }

    /// The class's display name
    pub fn name(&self) -> (r: String)
        ensures
            r@ == self.spec_name(),
    {
        match self {
            ObjectClass::Queue => String::from_str("Queue"),
            ObjectClass::Semaphore => String::from_str("Semaphore"),
            ObjectClass::Mutex => String::from_str("Mutex"),
            ObjectClass::Task => String::from_str("Task"),
            ObjectClass::Isr => String::from_str("ISR"),
            ObjectClass::Timer => String::from_str("Timer"),
            ObjectClass::EventGroup => String::from_str("EventGroup"),
            ObjectClass::StreamBuffer => String::from_str("StreamBuffer"),
            ObjectClass::MessageBuffer => String::from_str("MessageBuffer"),
            ObjectClass::StateMachine => String::from_str("StateMachine"),
        }
    }
}

/// The class that a lowercase, trimmed text names
pub open spec fn object_class_named(s: Seq<char>) -> Option<ObjectClass> {
    if s == "queue"@ {
        Some(ObjectClass::Queue)
    } else if s == "semaphore"@ {
        Some(ObjectClass::Semaphore)
    } else if s == "mutex"@ {
        Some(ObjectClass::Mutex)
    } else if s == "task"@ {
        Some(ObjectClass::Task)
    } else if s == "isr"@ {
        Some(ObjectClass::Isr)
    } else if s == "timer"@ {
        Some(ObjectClass::Timer)
    } else if s == "eventgroup"@ {
        Some(ObjectClass::EventGroup)
    } else if s == "streambuffer"@ {
        Some(ObjectClass::StreamBuffer)
    } else if s == "messagebuffer"@ {
        Some(ObjectClass::MessageBuffer)
    } else if s == "statemachine"@ {
        Some(ObjectClass::StateMachine)
    } else {
        None
    }
}

#[verifier::external_type_specification]
#[verifier::external_body]
pub struct ExParseObjectClassError(trace_recorder_parser::types::ParseObjectClassError);

/// `ObjectClass::from_str` of the trace recorder parser: lowercases the text, trims it and
/// matches it against the lowercase class names.
#[verifier::external_body]
fn parse_object_class(s: &str) -> (r: Result<ObjectClass, trace_recorder_parser::types::ParseObjectClassError>)
    ensures
        match r {
            Ok(c) => object_class_named(trim(crate::text::lowercase(s@))) == Some(c),
            Err(_) => object_class_named(trim(crate::text::lowercase(s@))) is None,
        },
{
    match s.parse::<ParserClass>() {
        Ok(ParserClass::Queue) => Ok(ObjectClass::Queue),
        Ok(ParserClass::Semaphore) => Ok(ObjectClass::Semaphore),
        Ok(ParserClass::Mutex) => Ok(ObjectClass::Mutex),
        Ok(ParserClass::Task) => Ok(ObjectClass::Task),
        Ok(ParserClass::Isr) => Ok(ObjectClass::Isr),
        Ok(ParserClass::Timer) => Ok(ObjectClass::Timer),
        Ok(ParserClass::EventGroup) => Ok(ObjectClass::EventGroup),
        Ok(ParserClass::StreamBuffer) => Ok(ObjectClass::StreamBuffer),
        Ok(ParserClass::MessageBuffer) => Ok(ObjectClass::MessageBuffer),
        Ok(ParserClass::StateMachine) => Ok(ObjectClass::StateMachine),
        Err(e) => Err(e),
    }
}

/// The error for a text that names no object class
#[derive(Copy, Clone, PartialEq, Eq, Structural, Debug)]
pub struct ObjectClassParseError;

/// An object class whose events are omitted during processing
#[derive(Copy, Clone, PartialEq, Eq, Structural, Debug)]
pub struct IgnoredObjectClass(pub ObjectClass);

impl IgnoredObjectClass {
    /// Parses an object class name, ignoring case and surrounding whitespace
    pub fn from_str(s: &str) -> (r: Result<IgnoredObjectClass, ObjectClassParseError>)
        ensures
            match r {
                Ok(c) => object_class_named(trim(crate::text::lowercase(s@))) == Some(c.0),
                Err(_) => object_class_named(trim(crate::text::lowercase(s@))) is None,
            },
    {
        match parse_object_class(s) {
            Ok(c) => Ok(IgnoredObjectClass(c)),
            Err(_) => Err(ObjectClassParseError),
        }
    }
}

impl TotallyOrdered for IgnoredObjectClass {
    type V = int;

    open spec fn order_view(&self) -> int {
        self.0.spec_index()
    }

    open spec fn view_lt(a: int, b: int) -> bool {
        a < b
    }

    proof fn lemma_view_order() {
    }

    fn compare_to(&self, other: &Self) -> (r: i8) {
        let a = self.0.index();
        let b = other.0.index();
        if a < b {
            -1
        } else if a == b {
            0
        } else {
            1
        }
    }
}

/// A set of object classes to ignore
pub struct IgnoredObjectClasses {
    items: SortedSet<IgnoredObjectClass>,
}

impl IgnoredObjectClasses {
    pub open spec fn wf(&self) -> bool {
        self.items().wf()
    }

    pub closed spec fn items(&self) -> SortedSet<IgnoredObjectClass> {
        self.items
    }

    /// The indices of the classes in the set, in increasing order
    pub open spec fn view(&self) -> Seq<int> {
        self.items().view()
    }

    pub fn new() -> (r: IgnoredObjectClasses)
        ensures
            r.wf(),
            r@.len() == 0,
    {
        IgnoredObjectClasses { items: SortedSet::new() }
    }

    pub fn from_classes(classes: Vec<IgnoredObjectClass>) -> (r: IgnoredObjectClasses)
        ensures
            r.wf(),
            r@.to_set() == classes@.map_values(|c: IgnoredObjectClass| c.order_view()).to_set(),
    {
        IgnoredObjectClasses { items: SortedSet::from_vec(classes) }
    }

    pub fn as_slice(&self) -> (r: &[IgnoredObjectClass])
        ensures
            r@ == self.items().items(),
    {
        self.items.as_slice()
    }

    pub fn contains(&self, c: ObjectClass) -> (r: bool)
        requires
            self.wf(),
        ensures
            r == self@.contains(c.spec_index()),
    {
        let items = self.items.as_slice();
        let mut i: usize = 0;
        while i < items.len()
            invariant
                i <= items@.len(),
                items@ == self.items().items(),
                self@ == crate::order::order_views(items@),
                forall|j: int| 0 <= j < i ==> #[trigger] self@[j] != c.spec_index(),
            decreases items@.len() - i,
        {
            if items[i].0.index() == c.index() {
                assert(self@[i as int] == c.spec_index());
                return true;
            }
            i = i + 1;
        }
        false
    }
}


/// Reflector command-line options
pub struct ReflectorOpts {
    /// The configuration file's path
    pub config_file: Option<String>,
    /// The auth token, as a hex string
    pub auth_token: Option<String>,
    /// The ingest protocol parent service address
    pub protocol_parent_url: Option<String>,
    pub allow_insecure_tls: bool,
    pub run_id: Option<String>,
    pub time_domain: Option<String>,
}

/// Trace recorder command-line options
pub struct TraceRecorderOpts {
    pub user_event_channel: bool,
    pub user_event_format_string: bool,
    pub user_event_format_string_channel: Vec<String>,
    pub user_event_channel_name: Vec<RenameMapItem>,
    pub user_event_formatted_string_name: Vec<RenameMapItem>,
    pub user_event_fmt_arg_attr_keys: Vec<FormatArgAttributeKeysItem>,
    pub single_task_timeline: bool,
    pub flatten_isr_timelines: bool,
    pub disable_task_interactions: bool,
    pub use_timeline_id_channel: bool,
    pub deviant_event_id_base: Option<u16>,
    pub custom_printf_event_id: Option<u16>,
    pub startup_task_name: Option<String>,
    pub ignore_object_class: Vec<IgnoredObjectClass>,
    pub include_unknown_events: bool,
    pub interaction_mode: Option<InteractionMode>,
    /// The CPU utilization measurement window in milliseconds
    pub cpu_utilization_measurement_window_ms: Option<u64>,
}

} // verus!
