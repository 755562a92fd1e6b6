//! The server configuration file: a list of `key = value` lines.

use vstd::prelude::*;
use vstd::string::*;

use crate::decimal::{decimal_text, render_decimal};
use crate::text::{chars_of, string_of};

verus! {

/// How byte_unit writes a size: in the largest decimal unit that the size
/// exceeds, without fractional digits, as in `128 MB`.
pub uninterp spec fn byte_size_text(bytes: nat) -> Seq<char>;

/// Relies on byte_unit's `Byte::get_appropriate_unit` with decimal units and
/// `AdjustedByte::format` with no fractional digits.
#[verifier::external_body]
fn format_byte_size(bytes: u64) -> (r: String)
    ensures
        r@ == byte_size_text(bytes as nat),
{
    byte_unit::Byte::from_bytes(bytes as u128).get_appropriate_unit(false).format(0)
}

/// `s` with every space left out.
pub open spec fn without_spaces(s: Seq<char>) -> Seq<char>
    decreases s.len(),
{
    if s.len() == 0 {
        s
    } else if s.last() == ' ' {
        without_spaces(s.drop_last())
    } else {
        without_spaces(s.drop_last()).push(s.last())
    }
}

fn remove_spaces(s: &str) -> (r: String)
    ensures
        r@ == without_spaces(s@),
{
    let t = chars_of(s);
    let mut out: Vec<char> = Vec::new();
    let mut i: usize = 0;
    while i < t.len()
        invariant
            i <= t@.len(),
            out@ == without_spaces(t@.take(i as int)),
        decreases t@.len() - i,
    {
        assert(t@.take(i + 1).drop_last() =~= t@.take(i as int));
        if t[i] != ' ' {
            out.push(t[i]);
        }
        i = i + 1;
    }
    assert(t@.take(i as int) =~= s@);
    string_of(&out)
}

/// The value of one setting.
pub enum Value {
    /// A size in bytes.
    Byte(u64),
    Int(u32),
    /// A string, written quoted.
    Str(String),
}

pub enum ValueView {
    Byte(u64),
    Int(u32),
    Str(Seq<char>),
}

impl View for Value {
    type V = ValueView;

    open spec fn view(&self) -> ValueView {
        match self {
            Value::Byte(b) => ValueView::Byte(*b),
            Value::Int(i) => ValueView::Int(*i),
            Value::Str(s) => ValueView::Str(s@),
        }
    }
}

/// The text of a value as the configuration file holds it.
pub open spec fn value_text(v: Value) -> Seq<char> {
    match v {
        Value::Byte(b) => without_spaces(byte_size_text(b as nat)),
        Value::Int(i) => decimal_text(i as nat),
        Value::Str(s) => seq!['\''] + s@ + seq!['\''],
    }
}

impl Value {
    pub fn to_text(&self) -> (r: String)
        ensures
            r@ == value_text(*self),
    {
        match self {
            Value::Byte(b) => {
                let text = format_byte_size(*b);
                remove_spaces(text.as_str())
            },
            Value::Int(i) => {
                let mut digits: Vec<char> = Vec::new();
                render_decimal(*i, &mut digits);
                assert(digits@ =~= decimal_text(*i as nat));
                string_of(&digits)
            },
            Value::Str(s) => {
                let mut out = String::from_str("'");
                out.append(s.as_str());
                out.append("'");
                proof {
                    reveal_strlit("'");
                    assert("'"@ =~= seq!['\'']);
                }
                out
            },
        }
    }
}

/// One `key = value` line.
pub struct KeyVal {
    pub key: String,
    pub val: Value,
}

pub open spec fn row_text(row: KeyVal) -> Seq<char> {
    row.key@ + " = "@ + value_text(row.val)
}

impl KeyVal {
    pub fn byte(key: &str, val: u64) -> (r: KeyVal)
        ensures
            r.key@ == key@,
            r.val == Value::Byte(val),
    {
        KeyVal { key: String::from_str(key), val: Value::Byte(val) }
    }

    pub fn number(key: &str, val: u32) -> (r: KeyVal)
        ensures
            r.key@ == key@,
            r.val == Value::Int(val),
    {
        KeyVal { key: String::from_str(key), val: Value::Int(val) }
    }

    pub fn str(key: &str, val: &str) -> (r: KeyVal)
        ensures
            r.key@ == key@,
            r.val matches Value::Str(s) && s@ == val@,
    {
        KeyVal { key: String::from_str(key), val: Value::Str(String::from_str(val)) }
    }

    pub fn to_text(&self) -> (r: String)
        ensures
            r@ == row_text(*self),
    {
        let mut out = String::from_str(self.key.as_str());
        out.append(" = ");
        let v = self.val.to_text();
        out.append(v.as_str());
        out
    }
}

/// The text of a configuration file: each row on a line of its own.
pub open spec fn config_text(rows: Seq<KeyVal>) -> Seq<char>
    decreases rows.len(),
{
    if rows.len() == 0 {
        Seq::empty()
    } else {
        config_text(rows.drop_last()) + row_text(rows.last()) + seq!['\n']
    }
}

/// A configuration file's rows, in the order they are written.
pub struct Config {
    pub rows: Vec<KeyVal>,
}

impl Config {
    /// The lines of the file, without line ends.
    pub fn to_strings(&self) -> (r: Vec<String>)
        ensures
            r@.len() == self.rows@.len(),
            forall|i: int| 0 <= i < r@.len() ==> r@[i]@ == row_text(#[trigger] self.rows@[i]),
    {
        let mut out: Vec<String> = Vec::new();
        let mut i: usize = 0;
        while i < self.rows.len()
            invariant
                i <= self.rows@.len(),
                out@.len() == i,
                forall|j: int| 0 <= j < i ==> out@[j]@ == row_text(#[trigger] self.rows@[j]),
            decreases self.rows@.len() - i,
        {
            let line = self.rows[i].to_text();
            out.push(line);
            i = i + 1;
        }
        out
    }

    /// The content of the file.
    pub fn to_text(&self) -> (r: String)
        ensures
            r@ == config_text(self.rows@),
    {
        let mut out = String::new();
        let mut i: usize = 0;
        proof {
            reveal_strlit("\n");
            assert("\n"@ =~= seq!['\n']);
        }
        while i < self.rows.len()
            invariant
                i <= self.rows@.len(),
                "\n"@ == seq!['\n'],
                out@ == config_text(self.rows@.take(i as int)),
            decreases self.rows@.len() - i,
        {
            assert(self.rows@.take(i + 1).drop_last() =~= self.rows@.take(i as int));
            let line = self.rows[i].to_text();
            out.append(line.as_str());
            out.append("\n");
            i = i + 1;
        }
        assert(self.rows@.take(i as int) =~= self.rows@);
        out
    }
}

pub open spec fn quoted(s: Seq<char>) -> Seq<char> {
    seq!['\''] + s + seq!['\'']
}

pub open spec fn size_text(bytes: u64) -> Seq<char> {
    without_spaces(byte_size_text(bytes as nat))
}

/// The file text of settings given as keys and value texts.
pub open spec fn settings_text(settings: Seq<(Seq<char>, Seq<char>)>) -> Seq<char>
    decreases settings.len(),
{
    if settings.len() == 0 {
        Seq::empty()
    } else {
        settings_text(settings.drop_last()) + settings.last().0 + " = "@ + settings.last().1
            + seq!['\n']
    }
}

proof fn lemma_config_text(rows: Seq<KeyVal>, settings: Seq<(Seq<char>, Seq<char>)>)
    requires
        rows.len() == settings.len(),
        forall|i: int|
            0 <= i < rows.len() ==> (#[trigger] rows[i]).key@ == settings[i].0 && value_text(
                rows[i].val,
            ) == settings[i].1,
    ensures
        config_text(rows) == settings_text(settings),
    decreases rows.len(),
{
    if rows.len() > 0 {
        let n = rows.len() - 1;
        assert(rows[n as int].key@ == settings[n as int].0);
        lemma_config_text(rows.drop_last(), settings.drop_last());
        assert(row_text(rows.last()) == settings.last().0 + " = "@ + settings.last().1);
        assert(config_text(rows) =~= settings_text(settings));
    }
}

/// The settings of one server.
#[derive(Debug)]
pub struct PostgresqlConf {
    pub listen_addresses: String,
    pub port: u32,
    pub max_connections: u32,
    /// In bytes.
    pub shared_buffers: u64,
    /// In bytes.
    pub max_wal_size: u64,
    /// In bytes.
    pub min_wal_size: u64,
    pub locale: String,
    pub timezone: String,
}

/// 128 MB.
pub const SHARED_BUFFERS_BYTES: u64 = 128_000_000;

/// 1 GB.
pub const MAX_WAL_SIZE_BYTES: u64 = 1_000_000_000;

/// 80 MB.
pub const MIN_WAL_SIZE_BYTES: u64 = 80_000_000;

impl PostgresqlConf {
    /// The settings of a disposable server listening on `port`.
    pub fn default(port: u32) -> (r: PostgresqlConf)
        ensures
            r.listen_addresses@ == "*"@,
            r.port == port,
            r.max_connections == 100,
            r.shared_buffers == SHARED_BUFFERS_BYTES,
            r.max_wal_size == MAX_WAL_SIZE_BYTES,
            r.min_wal_size == MIN_WAL_SIZE_BYTES,
            r.timezone@ == "America/Toronto"@,
            r.locale@ == "en_US.UTF-8"@,
    {
        PostgresqlConf {
            listen_addresses: String::from_str("*"),
            port,
            max_connections: 100,
            shared_buffers: SHARED_BUFFERS_BYTES,
            max_wal_size: MAX_WAL_SIZE_BYTES,
            min_wal_size: MIN_WAL_SIZE_BYTES,
            timezone: String::from_str("America/Toronto"),
            locale: String::from_str("en_US.UTF-8"),
        }
    }

    /// Each setting's key and the text of its value, in file order.
    pub open spec fn settings(&self) -> Seq<(Seq<char>, Seq<char>)> {
        seq![
            ("listen_addresses"@, quoted(self.listen_addresses@)),
            ("port"@, decimal_text(self.port as nat)),
            ("max_connections"@, decimal_text(self.max_connections as nat)),
            ("shared_buffers"@, size_text(self.shared_buffers)),
            ("dynamic_shared_memory_type"@, quoted("posix"@)),
            ("max_wal_size"@, size_text(self.max_wal_size)),
            ("min_wal_size"@, size_text(self.min_wal_size)),
            ("log_timezone"@, quoted(self.timezone@)),
            ("datestyle"@, quoted("iso, mdy"@)),
            ("timezone"@, quoted(self.timezone@)),
            ("lc_messages"@, quoted(self.locale@)),
            ("lc_monetary"@, quoted(self.locale@)),
            ("lc_numeric"@, quoted(self.locale@)),
            ("lc_time"@, quoted(self.locale@)),
            ("default_text_search_config"@, quoted("pg_catalog.english"@)),
            ("fsync"@, quoted("off"@)),
            ("full_page_writes"@, quoted("off"@)),
            ("synchronous_commit"@, quoted("off"@)),
            ("wal_level"@, quoted("minimal"@)),
            ("max_wal_senders"@, decimal_text(0)),
        ]
    }

    /// Each setting's value, in file order.
    pub open spec fn values(&self) -> Seq<ValueView> {
        seq![
            ValueView::Str(self.listen_addresses@),
            ValueView::Int(self.port),
            ValueView::Int(self.max_connections),
            ValueView::Byte(self.shared_buffers),
            ValueView::Str("posix"@),
            ValueView::Byte(self.max_wal_size),
            ValueView::Byte(self.min_wal_size),
            ValueView::Str(self.timezone@),
            ValueView::Str("iso, mdy"@),
            ValueView::Str(self.timezone@),
            ValueView::Str(self.locale@),
            ValueView::Str(self.locale@),
            ValueView::Str(self.locale@),
            ValueView::Str(self.locale@),
            ValueView::Str("pg_catalog.english"@),
            ValueView::Str("off"@),
            ValueView::Str("off"@),
            ValueView::Str("off"@),
            ValueView::Str("minimal"@),
            ValueView::Int(0),
        ]
    }

    /// The configuration file of these settings.
    pub fn to_config(&self) -> (r: Config)
        ensures
            r.rows@.len() == self.settings().len(),
            forall|i: int|
                0 <= i < r.rows@.len() ==> (#[trigger] r.rows@[i]).key@ == self.settings()[i].0
                    && value_text(r.rows@[i].val) == self.settings()[i].1 && r.rows@[i].val@
                    == self.values()[i],
    {
        let mut rows: Vec<KeyVal> = Vec::new();
        rows.push(KeyVal::str("listen_addresses", self.listen_addresses.as_str()));
        rows.push(KeyVal::number("port", self.port));
        rows.push(KeyVal::number("max_connections", self.max_connections));
        rows.push(KeyVal::byte("shared_buffers", self.shared_buffers));
        rows.push(KeyVal::str("dynamic_shared_memory_type", "posix"));
        rows.push(KeyVal::byte("max_wal_size", self.max_wal_size));
        rows.push(KeyVal::byte("min_wal_size", self.min_wal_size));
        rows.push(KeyVal::str("log_timezone", self.timezone.as_str()));
        rows.push(KeyVal::str("datestyle", "iso, mdy"));
        rows.push(KeyVal::str("timezone", self.timezone.as_str()));
        rows.push(KeyVal::str("lc_messages", self.locale.as_str()));
        rows.push(KeyVal::str("lc_monetary", self.locale.as_str()));
        rows.push(KeyVal::str("lc_numeric", self.locale.as_str()));
        rows.push(KeyVal::str("lc_time", self.locale.as_str()));
        rows.push(KeyVal::str("default_text_search_config", "pg_catalog.english"));
        // Crash-unsafe settings that trade durability for speed.
        rows.push(KeyVal::str("fsync", "off"));
        rows.push(KeyVal::str("full_page_writes", "off"));
        rows.push(KeyVal::str("synchronous_commit", "off"));
        rows.push(KeyVal::str("wal_level", "minimal"));
        rows.push(KeyVal::number("max_wal_senders", 0));
        Config { rows }
    }

    /// The text of the configuration file of these settings.
    pub fn file_text(&self) -> (r: String)
        ensures
            r@ == settings_text(self.settings()),
    {
        let config = self.to_config();
        proof {
            lemma_config_text(config.rows@, self.settings());
        }
        config.to_text()
    }
}

} // verus!
