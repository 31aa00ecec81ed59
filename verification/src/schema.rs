//! The telemetry envelope and the process-table schema: an opaque columns
//! payload of named text fields, decoded strictly into a typed record.

use vstd::prelude::*;
use vstd::string::StrSliceExecFns;

use crate::numeric::spec_parse_i64;
use crate::numeric::spec_parse_u64;
use crate::numeric::parse_i64;
use crate::numeric::parse_u64;

verus! {

/// Character-for-character string comparison.
pub fn str_eq(a: &str, b: &str) -> (r: bool)
    ensures
        r == (a@ == b@),
{
    let a_len = a.unicode_len();
    let b_len = b.unicode_len();
    if a_len != b_len {
        return false;
    }
    let mut i: usize = 0;
    while i < a_len
        invariant
            0 <= i <= a_len,
            a_len == a@.len(),
            a_len == b@.len(),
            forall|j: int| 0 <= j < i ==> a@[j] == b@[j],
        decreases a_len - i,
    {
        if a.get_char(i) != b.get_char(i) {
            return false;
        }
        i = i + 1;
    }
    proof {
        assert(a@ =~= b@);
    }
    true
}

/// The columns payload of one log line: named fields holding raw text, in
/// arrival order. Fields not declared by a schema are simply ignored.
pub struct Columns {
    pub entries: Vec<(String, String)>,
}

impl View for Columns {
    type V = Seq<(Seq<char>, Seq<char>)>;

    open spec fn view(&self) -> Seq<(Seq<char>, Seq<char>)> {
        Seq::new(self.entries@.len(), |i: int| (self.entries@[i].0@, self.entries@[i].1@))
    }
}

/// The value of the first field with the given name, if any.
pub open spec fn spec_lookup(cols: Seq<(Seq<char>, Seq<char>)>, name: Seq<char>) -> Option<
    Seq<char>,
>
    decreases cols.len(),
{
    if cols.len() == 0 {
        None
    } else if cols[0].0 == name {
        Some(cols[0].1)
    } else {
        spec_lookup(cols.drop_first(), name)
    }
}

impl Columns {
    /// An empty payload.
    pub fn new() -> (c: Columns)
        ensures
            c@.len() == 0,
    {
        let c = Columns { entries: Vec::new() };
        proof {
            assert(c@ =~= Seq::<(Seq<char>, Seq<char>)>::empty());
        }
        c
    }

    /// Appends one named field.
    pub fn push(&mut self, name: String, value: String)
        ensures
            final(self)@ == old(self)@.push((name@, value@)),
    {
        let ghost name_view = name@;
        let ghost value_view = value@;
        self.entries.push((name, value));
        proof {
            assert(self@ =~= old(self)@.push((name_view, value_view)));
        }
    }

    /// The value of the first field with the given name, if any.
    pub fn get<'a>(&'a self, name: &str) -> (r: Option<&'a String>)
        ensures
            match spec_lookup(self@, name@) {
                Some(v) => r matches Some(s) && s@ == v,
                None => r is None,
            },
    {
        let n = self.entries.len();
        let mut i: usize = 0;
        proof {
            assert(self@.skip(0) =~= self@);
        }
        while i < n
            invariant
                0 <= i <= n,
                n == self.entries@.len(),
                n == self@.len(),
                spec_lookup(self@, name@) == spec_lookup(self@.skip(i as int), name@),
            decreases n - i,
        {
            proof {
                assert(self@.skip(i as int)[0] == self@[i as int]);
                assert(self@.skip(i as int).drop_first() =~= self@.skip(i + 1));
            }
            if str_eq(self.entries[i].0.as_str(), name) {
                return Some(&self.entries[i].1);
            }
            i = i + 1;
        }
        proof {
            assert(self@.skip(n as int) =~= Seq::<(Seq<char>, Seq<char>)>::empty());
        }
        None
    }
}

/// One decoded log line: header metadata plus the columns payload, whose
/// schema-specific decoding is deferred to `decode_process_record`.
pub struct Envelope {
    pub host_identifier: String,
    pub observed_time: u64,
    pub query_name: String,
    pub columns: Columns,
}

/// The typed record of the process table. The numeric fields arrive as
/// decimal text; `parent` and `time` may carry the sentinel -1 for
/// "unknown".
#[derive(Debug)]
pub struct ProcessQueryRecord {
    pub pid: u64,
    pub name: String,
    pub path: String,
    pub cmdline: String,
    pub parent: i64,
    pub time: i64,
}

/// The mathematical value of a `ProcessQueryRecord`.
pub ghost struct ProcessQueryRecordView {
    pub pid: u64,
    pub name: Seq<char>,
    pub path: Seq<char>,
    pub cmdline: Seq<char>,
    pub parent: i64,
    pub time: i64,
}

impl View for ProcessQueryRecord {
    type V = ProcessQueryRecordView;

    open spec fn view(&self) -> ProcessQueryRecordView {
        ProcessQueryRecordView {
            pid: self.pid,
            name: self.name@,
            path: self.path@,
            cmdline: self.cmdline@,
            parent: self.parent,
            time: self.time,
        }
    }
}

/// Malformed or missing telemetry fields, or an unsupported table name.
/// Deterministic given the input: a retry helps only after the upstream data
/// is corrected.
#[derive(Debug)]
pub enum DecodeError {
    MissingField { field: String },
    InvalidNumeric { field: String, raw_value: String },
    UnsupportedQueryKind { name: String },
}

/// The mathematical value of a `DecodeError`.
pub ghost enum DecodeErrorView {
    MissingField { field: Seq<char> },
    InvalidNumeric { field: Seq<char>, raw_value: Seq<char> },
    UnsupportedQueryKind { name: Seq<char> },
}

impl View for DecodeError {
    type V = DecodeErrorView;

    open spec fn view(&self) -> DecodeErrorView {
        match self {
            DecodeError::MissingField { field } => {
                DecodeErrorView::MissingField { field: field@ }
            },
            DecodeError::InvalidNumeric { field, raw_value } => {
                DecodeErrorView::InvalidNumeric { field: field@, raw_value: raw_value@ }
            },
            DecodeError::UnsupportedQueryKind { name } => {
                DecodeErrorView::UnsupportedQueryKind { name: name@ }
            },
        }
    }
}

/// What strict decoding of the process schema yields: the fields are checked
/// in declaration order, every declared field must be present, and the
/// numeric fields must decode from decimal text.
pub open spec fn spec_decode_process(cols: Seq<(Seq<char>, Seq<char>)>) -> Result<
    ProcessQueryRecordView,
    DecodeErrorView,
> {
    if spec_lookup(cols, "pid"@) is None {
        Err(DecodeErrorView::MissingField { field: "pid"@ })
    } else if spec_parse_u64(spec_lookup(cols, "pid"@)->Some_0) is None {
        Err(
            DecodeErrorView::InvalidNumeric {
                field: "pid"@,
                raw_value: spec_lookup(cols, "pid"@)->Some_0,
            },
        )
    } else if spec_lookup(cols, "name"@) is None {
        Err(DecodeErrorView::MissingField { field: "name"@ })
    } else if spec_lookup(cols, "path"@) is None {
        Err(DecodeErrorView::MissingField { field: "path"@ })
    } else if spec_lookup(cols, "cmdline"@) is None {
        Err(DecodeErrorView::MissingField { field: "cmdline"@ })
    } else if spec_lookup(cols, "parent"@) is None {
        Err(DecodeErrorView::MissingField { field: "parent"@ })
    } else if spec_parse_i64(spec_lookup(cols, "parent"@)->Some_0) is None {
        Err(
            DecodeErrorView::InvalidNumeric {
                field: "parent"@,
                raw_value: spec_lookup(cols, "parent"@)->Some_0,
            },
        )
    } else if spec_lookup(cols, "time"@) is None {
        Err(DecodeErrorView::MissingField { field: "time"@ })
    } else if spec_parse_i64(spec_lookup(cols, "time"@)->Some_0) is None {
        Err(
            DecodeErrorView::InvalidNumeric {
                field: "time"@,
                raw_value: spec_lookup(cols, "time"@)->Some_0,
            },
        )
    } else {
        Ok(
            ProcessQueryRecordView {
                pid: spec_parse_u64(spec_lookup(cols, "pid"@)->Some_0)->Some_0,
                name: spec_lookup(cols, "name"@)->Some_0,
                path: spec_lookup(cols, "path"@)->Some_0,
                cmdline: spec_lookup(cols, "cmdline"@)->Some_0,
                parent: spec_parse_i64(spec_lookup(cols, "parent"@)->Some_0)->Some_0,
                time: spec_parse_i64(spec_lookup(cols, "time"@)->Some_0)->Some_0,
            },
        )
    }
}

/// Strict structural decoding of the process schema: every declared field
/// must be present and convertible; unknown extra fields are ignored; the
/// text fields pass through verbatim with no trimming.
pub fn decode_process_record(cols: &Columns) -> (r: Result<ProcessQueryRecord, DecodeError>)
    ensures
        match spec_decode_process(cols@) {
            Ok(v) => r matches Ok(rec) && rec@ == v,
            Err(e) => r matches Err(d) && d@ == e,
        },
{
    let pid_raw = match cols.get("pid") {
        Some(v) => v,
        None => {
            return Err(DecodeError::MissingField { field: "pid".to_owned() });
        },
    };
    let pid = match parse_u64(pid_raw.as_str()) {
        Some(v) => v,
        None => {
            return Err(
                DecodeError::InvalidNumeric {
                    field: "pid".to_owned(),
                    raw_value: pid_raw.clone(),
                },
            );
        },
    };
    let name = match cols.get("name") {
        Some(v) => v.clone(),
        None => {
            return Err(DecodeError::MissingField { field: "name".to_owned() });
        },
    };
    let path = match cols.get("path") {
        Some(v) => v.clone(),
        None => {
            return Err(DecodeError::MissingField { field: "path".to_owned() });
        },
    };
    let cmdline = match cols.get("cmdline") {
        Some(v) => v.clone(),
        None => {
            return Err(DecodeError::MissingField { field: "cmdline".to_owned() });
        },
    };
    let parent_raw = match cols.get("parent") {
        Some(v) => v,
        None => {
            return Err(DecodeError::MissingField { field: "parent".to_owned() });
        },
    };
    let parent = match parse_i64(parent_raw.as_str()) {
        Some(v) => v,
        None => {
            return Err(
                DecodeError::InvalidNumeric {
                    field: "parent".to_owned(),
                    raw_value: parent_raw.clone(),
                },
            );
        },
    };
    let time_raw = match cols.get("time") {
        Some(v) => v,
        None => {
            return Err(DecodeError::MissingField { field: "time".to_owned() });
        },
    };
    let time = match parse_i64(time_raw.as_str()) {
        Some(v) => v,
        None => {
            return Err(
                DecodeError::InvalidNumeric {
                    field: "time".to_owned(),
                    raw_value: time_raw.clone(),
                },
            );
        },
    };
    Ok(ProcessQueryRecord { pid, name, path, cmdline, parent, time })
}

} // verus!
